//! Reading the visible content of a window, element by element.

use vstd::prelude::*;

use super::types::{
    AxTextRange, ElementId, AX_ERROR_ATTRIBUTE_UNSUPPORTED, AX_ERROR_NO_VALUE, AX_ERROR_SUCCESS,
};
use crate::text;
use crate::text::format_decimal;
use crate::window_list::{AxFrame, AxPoint, AxSize};

verus! {

/// The application did not answer in time.
pub const AX_ERROR_CANNOT_COMPLETE: i32 = -25_204;

/// The native side broke its own contract.
pub const WRAPPER_CONTRACT_ERROR: i32 = -1;

/// An attribute that a content snapshot reads.
#[derive(Clone, Copy, Debug, PartialEq, Eq, Structural)]
pub enum SnapshotAttribute {
    Role,
    Subrole,
    Title,
    Description,
    Value,
    Position,
    Size,
}

impl SnapshotAttribute {
    pub open spec fn spec_name(self) -> &'static str {
        match self {
            SnapshotAttribute::Role => "AXRole",
            SnapshotAttribute::Subrole => "AXSubrole",
            SnapshotAttribute::Title => "AXTitle",
            SnapshotAttribute::Description => "AXDescription",
            SnapshotAttribute::Value => "AXValue",
            SnapshotAttribute::Position => "AXPosition",
            SnapshotAttribute::Size => "AXSize",
        }
    }

    /// The native name.
    pub fn name(self) -> (name: &'static str)
        ensures
            name == self.spec_name(),
            name@ == self.spec_name()@,
    {
        match self {
            SnapshotAttribute::Role => "AXRole",
            SnapshotAttribute::Subrole => "AXSubrole",
            SnapshotAttribute::Title => "AXTitle",
            SnapshotAttribute::Description => "AXDescription",
            SnapshotAttribute::Value => "AXValue",
            SnapshotAttribute::Position => "AXPosition",
            SnapshotAttribute::Size => "AXSize",
        }
    }
}

/// The value of an attribute.
#[derive(Debug, PartialEq)]
pub enum SnapshotAttributeValue {
    Text(String),
    Point(AxPoint),
    Size(AxSize),
}

/// A native call that failed, with the process that it was made for.
#[derive(Clone, Copy, Debug, PartialEq, Eq)]
pub struct SnapshotAxError {
    operation: &'static str,
    code: i32,
    pid: i32,
}

/// The outcome of reading an attribute: a missing one is no error.
pub type SnapshotAttributeResult = Result<Option<SnapshotAttributeValue>, SnapshotAxError>;

impl SnapshotAxError {
    pub closed spec fn spec_operation(self) -> &'static str {
        self.operation
    }

    pub closed spec fn spec_code(self) -> i32 {
        self.code
    }

    pub closed spec fn spec_pid(self) -> i32 {
        self.pid
    }

    /// Whether this is the error of an operation.
    pub open spec fn is_error(self, operation: &'static str, code: i32, pid: i32) -> bool {
        self.spec_operation() == operation && self.spec_code() == code && self.spec_pid() == pid
    }

    /// The call that failed.
    pub fn operation(&self) -> (operation: &'static str)
        ensures
            operation == self.spec_operation(),
            operation@ == self.spec_operation()@,
    {
        self.operation
    }

    /// The native error number.
    pub fn code(&self) -> (code: i32)
        ensures
            code == self.spec_code(),
    {
        self.code
    }

    /// The process that the call was made for.
    pub fn pid(&self) -> (pid: i32)
        ensures
            pid == self.spec_pid(),
    {
        self.pid
    }

    /// Whether the application did not answer in time.
    pub fn is_timeout(&self) -> (timeout: bool)
        ensures
            timeout == (self.spec_code() == AX_ERROR_CANNOT_COMPLETE),
    {
        self.code == AX_ERROR_CANNOT_COMPLETE
    }

    /// What went wrong.
    pub fn message(&self) -> (message: String)
        ensures
            message@ == self.spec_operation()@ + " failed with AXError "@ + text::decimal(
                self.spec_code() as int,
            ) + " for pid "@ + text::decimal(self.spec_pid() as int),
    {
        let mut message = self.operation.to_owned();
        message.append(" failed with AXError ");
        let code = format_decimal(self.code as i64);
        message.append(code.as_str());
        message.append(" for pid ");
        let pid = format_decimal(self.pid as i64);
        message.append(pid.as_str());
        message
    }
}

/// The error of an operation.
pub fn ax_error(operation: &'static str, code: i32, pid: i32) -> (error: SnapshotAxError)
    ensures
        error.is_error(operation, code, pid),
{
    SnapshotAxError { operation, code, pid }
}

/// Whether a status says that an attribute is missing.
pub open spec fn is_missing(status: i32) -> bool {
    status == AX_ERROR_ATTRIBUTE_UNSUPPORTED || status == AX_ERROR_NO_VALUE
}

/// What the native calls of one read reported: naming the attribute, the read
/// itself and the value it gave.
#[derive(Debug, PartialEq, Eq)]
pub struct AttributeOutcome<T> {
    pub named: bool,
    pub status: i32,
    pub value: Option<T>,
}

/// Whether `result` is what a read comes to. A missing attribute is none, and
/// any failed step is its own error.
pub open spec fn attribute_of<T>(
    outcome: AttributeOutcome<T>,
    operation: &'static str,
    null_operation: &'static str,
    pid: i32,
    result: Result<Option<T>, SnapshotAxError>,
) -> bool {
    if !outcome.named {
        result matches Err(error) && error.is_error(
            "CFStringCreateWithCString",
            WRAPPER_CONTRACT_ERROR,
            pid,
        )
    } else if is_missing(outcome.status) {
        result == Ok::<Option<T>, SnapshotAxError>(None)
    } else if outcome.status != AX_ERROR_SUCCESS {
        result matches Err(error) && error.is_error(operation, outcome.status, pid)
    } else {
        match outcome.value {
            Some(value) => result == Ok::<Option<T>, SnapshotAxError>(Some(value)),
            None => result matches Err(error) && error.is_error(
                null_operation,
                WRAPPER_CONTRACT_ERROR,
                pid,
            ),
        }
    }
}

/// What a read comes to.
fn attribute_value<T>(
    outcome: AttributeOutcome<T>,
    operation: &'static str,
    null_operation: &'static str,
    pid: i32,
) -> (result: Result<Option<T>, SnapshotAxError>)
    ensures
        attribute_of(outcome, operation, null_operation, pid, result),
{
    if !outcome.named {
        return Err(ax_error("CFStringCreateWithCString", WRAPPER_CONTRACT_ERROR, pid));
    }
    if outcome.status == AX_ERROR_ATTRIBUTE_UNSUPPORTED || outcome.status == AX_ERROR_NO_VALUE {
        return Ok(None);
    }
    if outcome.status != AX_ERROR_SUCCESS {
        return Err(ax_error(operation, outcome.status, pid));
    }
    match outcome.value {
        Some(value) => Ok(Some(value)),
        None => Err(ax_error(null_operation, WRAPPER_CONTRACT_ERROR, pid)),
    }
}

/// Whether `error` says that the timeout of a call could not be set.
pub open spec fn timeout_error(error: SnapshotAxError, status: i32, pid: i32) -> bool {
    error.is_error("AXUIElementSetMessagingTimeout", status, pid)
}

/// Whether `result` is what reading one attribute comes to: first the timeout of
/// the call is set, and only then the attribute is read.
pub open spec fn attribute_read<T, L: Fn() -> i32, R: FnOnce(&'static str) -> AttributeOutcome<T>>(
    pid: i32,
    attribute: &'static str,
    set_timeout: L,
    read: R,
    result: Result<Option<T>, SnapshotAxError>,
) -> bool {
    exists|timeout_status: i32|
        {
            &&& #[trigger] call_ensures(set_timeout, (), timeout_status)
            &&& if timeout_status != AX_ERROR_SUCCESS {
                result matches Err(error) && timeout_error(error, timeout_status, pid)
            } else {
                exists|outcome: AttributeOutcome<T>| #[trigger]
                    call_ensures(read, (attribute,), outcome) && attribute_of(
                        outcome,
                        "AXUIElementCopyAttributeValue",
                        "AXUIElementCopyAttributeValue returned null",
                        pid,
                        result,
                    )
            }
        }
}

/// A list as the native side hands it out.
#[derive(Debug, PartialEq, Eq)]
pub enum NativeList<T> {
    /// A value of another type.
    Foreign,
    /// A list whose length makes no sense.
    Uncounted,
    Values(Vec<T>),
}

/// Whether `error` is why a list cannot be used.
pub open spec fn list_error<T>(list: NativeList<T>, pid: i32, error: SnapshotAxError) -> bool {
    match list {
        NativeList::Foreign => error.is_error("CFArray result type", WRAPPER_CONTRACT_ERROR, pid),
        NativeList::Uncounted => error.is_error("CFArrayGetCount", WRAPPER_CONTRACT_ERROR, pid),
        NativeList::Values(_) => false,
    }
}

/// The values of a list.
fn list_values<T>(list: NativeList<T>, pid: i32) -> (values: Result<Vec<T>, SnapshotAxError>)
    ensures
        match values {
            Ok(values) => list == NativeList::Values(values),
            Err(error) => list_error(list, pid, error),
        },
{
    match list {
        NativeList::Foreign => Err(ax_error("CFArray result type", WRAPPER_CONTRACT_ERROR, pid)),
        NativeList::Uncounted => Err(ax_error("CFArrayGetCount", WRAPPER_CONTRACT_ERROR, pid)),
        NativeList::Values(values) => Ok(values),
    }
}

/// Whether `result` is what a read comes to once its value had to have a type.
pub open spec fn typed_of<T>(
    read: Result<Option<Option<T>>, SnapshotAxError>,
    type_operation: &'static str,
    pid: i32,
    result: Result<Option<T>, SnapshotAxError>,
) -> bool {
    match read {
        Err(error) => result == Err::<Option<T>, SnapshotAxError>(error),
        Ok(None) => result == Ok::<Option<T>, SnapshotAxError>(None),
        Ok(Some(None)) => result matches Err(error) && error.is_error(
            type_operation,
            WRAPPER_CONTRACT_ERROR,
            pid,
        ),
        Ok(Some(Some(value))) => result == Ok::<Option<T>, SnapshotAxError>(Some(value)),
    }
}

/// A read whose value has to have a type; one of another type is an error.
fn typed_value<T>(
    read: Result<Option<Option<T>>, SnapshotAxError>,
    type_operation: &'static str,
    pid: i32,
) -> (result: Result<Option<T>, SnapshotAxError>)
    ensures
        typed_of(read, type_operation, pid, result),
{
    match read {
        Err(error) => Err(error),
        Ok(None) => Ok(None),
        Ok(Some(None)) => Err(ax_error(type_operation, WRAPPER_CONTRACT_ERROR, pid)),
        Ok(Some(Some(value))) => Ok(Some(value)),
    }
}

/// A value as the native side hands it out.
#[derive(Debug, PartialEq)]
pub enum RawAttribute {
    /// There is none.
    Null,
    /// An error takes its place; its number may be unreadable.
    Error(Option<i32>),
    Point(AxPoint),
    Size(AxSize),
    Text(String),
    /// A value of any other type.
    Other,
}

/// Whether `result` is what a value of an attribute decodes to.
pub open spec fn decoded_of(
    attribute: SnapshotAttribute,
    value: RawAttribute,
    pid: i32,
    result: SnapshotAttributeResult,
) -> bool {
    match value {
        RawAttribute::Null => result == Ok::<Option<SnapshotAttributeValue>, SnapshotAxError>(None),
        RawAttribute::Error(None) => result matches Err(error) && error.is_error(
            "AXValueGetValue error",
            WRAPPER_CONTRACT_ERROR,
            pid,
        ),
        RawAttribute::Error(Some(code)) => if is_missing(code) {
            result == Ok::<Option<SnapshotAttributeValue>, SnapshotAxError>(None)
        } else {
            result matches Err(error) && error.is_error(attribute.spec_name(), code, pid)
        },
        _ => match (attribute, value) {
            (SnapshotAttribute::Position, RawAttribute::Point(point)) => result == Ok::<
                Option<SnapshotAttributeValue>,
                SnapshotAxError,
            >(Some(SnapshotAttributeValue::Point(point))),
            (SnapshotAttribute::Position, _) => result matches Err(error) && error.is_error(
                "AXPosition type",
                WRAPPER_CONTRACT_ERROR,
                pid,
            ),
            (SnapshotAttribute::Size, RawAttribute::Size(size)) => result == Ok::<
                Option<SnapshotAttributeValue>,
                SnapshotAxError,
            >(Some(SnapshotAttributeValue::Size(size))),
            (SnapshotAttribute::Size, _) => result matches Err(error) && error.is_error(
                "AXSize type",
                WRAPPER_CONTRACT_ERROR,
                pid,
            ),
            (_, RawAttribute::Text(text)) => result == Ok::<
                Option<SnapshotAttributeValue>,
                SnapshotAxError,
            >(Some(SnapshotAttributeValue::Text(text))),
            _ => result matches Err(error) && error.is_error(
                attribute.spec_name(),
                WRAPPER_CONTRACT_ERROR,
                pid,
            ),
        },
    }
}

/// Decodes the value of an attribute.
pub fn decode_attribute(
    attribute: SnapshotAttribute,
    value: RawAttribute,
    pid: i32,
) -> (result: SnapshotAttributeResult)
    ensures
        decoded_of(attribute, value, pid, result),
{
    match value {
        RawAttribute::Null => Ok(None),
        RawAttribute::Error(None) => Err(
            ax_error("AXValueGetValue error", WRAPPER_CONTRACT_ERROR, pid),
        ),
        RawAttribute::Error(Some(code)) => {
            if code == AX_ERROR_ATTRIBUTE_UNSUPPORTED || code == AX_ERROR_NO_VALUE {
                Ok(None)
            } else {
                Err(ax_error(attribute.name(), code, pid))
            }
        },
        RawAttribute::Point(point) => match attribute {
            SnapshotAttribute::Position => Ok(Some(SnapshotAttributeValue::Point(point))),
            SnapshotAttribute::Size => Err(ax_error("AXSize type", WRAPPER_CONTRACT_ERROR, pid)),
            other => Err(ax_error(other.name(), WRAPPER_CONTRACT_ERROR, pid)),
        },
        RawAttribute::Size(size) => match attribute {
            SnapshotAttribute::Position => Err(
                ax_error("AXPosition type", WRAPPER_CONTRACT_ERROR, pid),
            ),
            SnapshotAttribute::Size => Ok(Some(SnapshotAttributeValue::Size(size))),
            other => Err(ax_error(other.name(), WRAPPER_CONTRACT_ERROR, pid)),
        },
        RawAttribute::Text(text) => match attribute {
            SnapshotAttribute::Position => Err(
                ax_error("AXPosition type", WRAPPER_CONTRACT_ERROR, pid),
            ),
            SnapshotAttribute::Size => Err(ax_error("AXSize type", WRAPPER_CONTRACT_ERROR, pid)),
            _ => Ok(Some(SnapshotAttributeValue::Text(text))),
        },
        RawAttribute::Other => match attribute {
            SnapshotAttribute::Position => Err(
                ax_error("AXPosition type", WRAPPER_CONTRACT_ERROR, pid),
            ),
            SnapshotAttribute::Size => Err(ax_error("AXSize type", WRAPPER_CONTRACT_ERROR, pid)),
            other => Err(ax_error(other.name(), WRAPPER_CONTRACT_ERROR, pid)),
        },
    }
}

/// An element of a window's content.
#[derive(Clone, Copy, Debug, PartialEq, Eq)]
pub struct SnapshotAxElement {
    pid: i32,
    element: ElementId,
}

/// What stands at one place of a list of children.
#[derive(Clone, Copy, Debug, PartialEq, Eq, Structural)]
pub enum ChildValue {
    Null,
    Foreign,
    Element { element: ElementId, timeout_status: i32 },
}

/// Whether a place of a list of children holds an element that can be read.
pub open spec fn child_ready(value: ChildValue) -> bool {
    value matches ChildValue::Element { timeout_status, .. } && timeout_status == AX_ERROR_SUCCESS
}

/// Whether a place is the first of a list of children that cannot be used.
pub open spec fn first_unusable(values: Seq<ChildValue>, place: int) -> bool {
    &&& 0 <= place < values.len()
    &&& !child_ready(values[place])
    &&& forall|i: int| 0 <= i < place ==> child_ready(#[trigger] values[i])
}

/// Whether `error` is why a place of a list of children cannot be used.
pub open spec fn child_error(value: ChildValue, pid: i32, error: SnapshotAxError) -> bool {
    match value {
        ChildValue::Null => error.is_error("CFArrayGetValueAtIndex", WRAPPER_CONTRACT_ERROR, pid),
        ChildValue::Foreign => error.is_error(
            "AX children element type",
            WRAPPER_CONTRACT_ERROR,
            pid,
        ),
        ChildValue::Element { timeout_status, .. } => error.is_error(
            "AXUIElementSetMessagingTimeout",
            timeout_status,
            pid,
        ),
    }
}

/// Whether `children` is what a list of children comes to.
pub open spec fn children_listed(
    pid: i32,
    values: Seq<ChildValue>,
    children: Result<Vec<SnapshotAxElement>, SnapshotAxError>,
) -> bool {
    match children {
        Ok(children) => children@.len() == values.len() && forall|i: int|
            0 <= i < values.len() ==> child_ready(values[i]) && (
            #[trigger] children@[i]).spec_pid() == pid && values[i] == (ChildValue::Element {
                element: children@[i].spec_element(),
                timeout_status: AX_ERROR_SUCCESS,
            }),
        Err(error) => exists|i: int| #[trigger]
            first_unusable(values, i) && child_error(values[i], pid, error),
    }
}

/// Whether `children` is what reading a range of children comes to.
pub open spec fn children_read(
    pid: i32,
    outcome: AttributeOutcome<NativeList<ChildValue>>,
    children: Result<Vec<SnapshotAxElement>, SnapshotAxError>,
) -> bool {
    if outcome.named && outcome.status == AX_ERROR_SUCCESS && outcome.value is Some {
        match outcome.value->0 {
            NativeList::Values(values) => children_listed(pid, values@, children),
            list => children matches Err(error) && list_error(list, pid, error),
        }
    } else if outcome.named && is_missing(outcome.status) {
        children matches Ok(children) && children@.len() == 0
    } else {
        children matches Err(error) && attribute_of(
            outcome,
            "AXUIElementCopyAttributeValues",
            "AXUIElementCopyAttributeValues returned null",
            pid,
            Err(error),
        )
    }
}

/// What the native calls of reading several attributes reported. A place of the
/// list may hold nothing.
#[derive(Debug, PartialEq)]
pub struct MultipleOutcome {
    pub named: bool,
    pub listed: bool,
    pub status: i32,
    pub values: Option<NativeList<Option<RawAttribute>>>,
}

/// Whether `results` is what a list of values decodes to.
pub open spec fn all_decoded(
    pid: i32,
    attributes: Seq<SnapshotAttribute>,
    values: Seq<Option<RawAttribute>>,
    results: Result<Vec<SnapshotAttributeResult>, SnapshotAxError>,
) -> bool {
    if values.len() != attributes.len() {
        results matches Err(error) && error.is_error(
            "AX multiple attribute result count",
            WRAPPER_CONTRACT_ERROR,
            pid,
        )
    } else {
        match results {
            Ok(results) => {
                &&& results@.len() == attributes.len()
                &&& forall|i: int| 0 <= i < values.len() ==> #[trigger] values[i] is Some
                &&& forall|i: int|
                    0 <= i < attributes.len() ==> decoded_of(
                        attributes[i],
                        values[i]->0,
                        pid,
                        #[trigger] results@[i],
                    )
            },
            Err(error) => error.is_error("CFArrayGetValueAtIndex", WRAPPER_CONTRACT_ERROR, pid)
                && exists|i: int| 0 <= i < values.len() && #[trigger] values[i] is None,
        }
    }
}

/// Whether `results` is what the native calls for several attributes come to.
/// Here an attribute is missed by the element, not by the call: any status but
/// success is an error.
pub open spec fn multiple_of(
    pid: i32,
    attributes: Seq<SnapshotAttribute>,
    outcome: MultipleOutcome,
    results: Result<Vec<SnapshotAttributeResult>, SnapshotAxError>,
) -> bool {
    if !outcome.named {
        results matches Err(error) && error.is_error(
            "CFStringCreateWithCString",
            WRAPPER_CONTRACT_ERROR,
            pid,
        )
    } else if !outcome.listed {
        results matches Err(error) && error.is_error("CFArrayCreate", WRAPPER_CONTRACT_ERROR, pid)
    } else if outcome.status != AX_ERROR_SUCCESS {
        results matches Err(error) && error.is_error(
            "AXUIElementCopyMultipleAttributeValues",
            outcome.status,
            pid,
        )
    } else {
        match outcome.values {
            None => results matches Err(error) && error.is_error(
                "AXUIElementCopyMultipleAttributeValues returned null",
                WRAPPER_CONTRACT_ERROR,
                pid,
            ),
            Some(NativeList::Values(values)) => all_decoded(pid, attributes, values@, results),
            Some(list) => results matches Err(error) && list_error(list, pid, error),
        }
    }
}

/// Whether `results` is what reading several attributes at once comes to.
pub open spec fn multiple_read<
    L: Fn() -> i32,
    R: FnOnce(&Vec<SnapshotAttribute>) -> MultipleOutcome,
>(
    pid: i32,
    attributes: &Vec<SnapshotAttribute>,
    set_timeout: L,
    read: R,
    results: Result<Vec<SnapshotAttributeResult>, SnapshotAxError>,
) -> bool {
    exists|timeout_status: i32|
        {
            &&& #[trigger] call_ensures(set_timeout, (), timeout_status)
            &&& if timeout_status != AX_ERROR_SUCCESS {
                results matches Err(error) && timeout_error(error, timeout_status, pid)
            } else {
                exists|outcome: MultipleOutcome| #[trigger]
                    call_ensures(read, (attributes,), outcome) && multiple_of(
                        pid,
                        attributes@,
                        outcome,
                        results,
                    )
            }
        }
}

/// Whether `frame` is what a position and a size come to.
pub open spec fn frame_of(
    position: SnapshotAttributeResult,
    size: SnapshotAttributeResult,
    pid: i32,
    frame: Result<Option<AxFrame>, SnapshotAxError>,
) -> bool {
    match (position, size) {
        (Err(error), _) => frame == Err::<Option<AxFrame>, SnapshotAxError>(error),
        (_, Err(error)) => frame == Err::<Option<AxFrame>, SnapshotAxError>(error),
        (Ok(None), Ok(None)) => frame == Ok::<Option<AxFrame>, SnapshotAxError>(None),
        (
            Ok(Some(SnapshotAttributeValue::Point(origin))),
            Ok(Some(SnapshotAttributeValue::Size(size))),
        ) => frame == Ok::<Option<AxFrame>, SnapshotAxError>(Some(AxFrame { origin, size })),
        _ => frame matches Err(error) && error.is_error(
            "AX frame result",
            WRAPPER_CONTRACT_ERROR,
            pid,
        ),
    }
}

/// Whether `range` is what reading the range of visible characters comes to.
pub open spec fn range_read<
    L: Fn() -> i32,
    R: FnOnce(&'static str) -> AttributeOutcome<Option<AxTextRange>>,
>(
    pid: i32,
    set_timeout: L,
    read: R,
    range: Result<Option<AxTextRange>, SnapshotAxError>,
) -> bool {
    exists|value: Result<Option<Option<AxTextRange>>, SnapshotAxError>|
        {
            &&& attribute_read(pid, "AXVisibleCharacterRange", set_timeout, read, value)
            &&& #[trigger] typed_of(value, "AXVisibleCharacterRange type", pid, range)
        }
}

/// What the native calls of reading the text of a range reported.
#[derive(Debug, PartialEq, Eq)]
pub struct RangeOutcome {
    pub range_created: bool,
    pub read: AttributeOutcome<Option<String>>,
}

/// Whether `text` is what the native calls for the text of a range come to.
pub open spec fn string_of(
    pid: i32,
    outcome: RangeOutcome,
    text: Result<Option<String>, SnapshotAxError>,
) -> bool {
    if !outcome.range_created {
        text matches Err(error) && error.is_error(
            "AXValueCreate range",
            WRAPPER_CONTRACT_ERROR,
            pid,
        )
    } else {
        exists|value: Result<Option<Option<String>>, SnapshotAxError>|
            {
                &&& attribute_of(
                    outcome.read,
                    "AXUIElementCopyParameterizedAttributeValue",
                    "AXStringForRange returned null",
                    pid,
                    value,
                )
                &&& #[trigger] typed_of(value, "AXStringForRange type", pid, text)
            }
    }
}

/// Whether `text` is what reading the text of a range comes to.
pub open spec fn string_read<
    L: Fn() -> i32,
    S: FnOnce(&'static str, AxTextRange) -> RangeOutcome,
>(
    pid: i32,
    range: AxTextRange,
    set_timeout: L,
    read: S,
    text: Result<Option<String>, SnapshotAxError>,
) -> bool {
    exists|timeout_status: i32|
        {
            &&& #[trigger] call_ensures(set_timeout, (), timeout_status)
            &&& if timeout_status != AX_ERROR_SUCCESS {
                text matches Err(error) && timeout_error(error, timeout_status, pid)
            } else {
                exists|outcome: RangeOutcome| #[trigger]
                    call_ensures(read, ("AXStringForRange", range), outcome) && string_of(
                        pid,
                        outcome,
                        text,
                    )
            }
        }
}

/// Whether `element` is what a read that names an element comes to.
pub open spec fn element_of(
    read: Result<Option<Option<(ElementId, i32)>>, SnapshotAxError>,
    pid: i32,
    element: Result<Option<SnapshotAxElement>, SnapshotAxError>,
) -> bool {
    match read {
        Err(error) => element == Err::<Option<SnapshotAxElement>, SnapshotAxError>(error),
        Ok(None) => element == Ok::<Option<SnapshotAxElement>, SnapshotAxError>(None),
        Ok(Some(None)) => element matches Err(error) && error.is_error(
            "AX element attribute type",
            WRAPPER_CONTRACT_ERROR,
            pid,
        ),
        Ok(Some(Some((named, timeout_status)))) => match element {
            Ok(found) => timeout_status == AX_ERROR_SUCCESS && (found matches Some(found)
                && found.spec_element() == named && found.spec_pid() == pid),
            Err(error) => timeout_status != AX_ERROR_SUCCESS && timeout_error(
                error,
                timeout_status,
                pid,
            ),
        },
    }
}

/// Whether `element` is what reading an attribute that names an element comes to.
pub open spec fn element_read<
    L: Fn() -> i32,
    R: FnOnce(&'static str) -> AttributeOutcome<Option<(ElementId, i32)>>,
>(
    pid: i32,
    attribute: &'static str,
    set_timeout: L,
    read: R,
    element: Result<Option<SnapshotAxElement>, SnapshotAxError>,
) -> bool {
    exists|value: Result<Option<Option<(ElementId, i32)>>, SnapshotAxError>|
        {
            &&& attribute_read(pid, attribute, set_timeout, read, value)
            &&& #[trigger] element_of(value, pid, element)
        }
}

impl SnapshotAxElement {
    pub closed spec fn spec_pid(self) -> i32 {
        self.pid
    }

    pub closed spec fn spec_element(self) -> ElementId {
        self.element
    }

    /// An element whose timeout was set.
    pub fn from_owned(pid: i32, element: ElementId, timeout_status: i32) -> (result: Result<
        Self,
        SnapshotAxError,
    >)
        ensures
            match result {
                Ok(made) => timeout_status == AX_ERROR_SUCCESS && made.spec_pid() == pid
                    && made.spec_element() == element,
                Err(error) => timeout_status != AX_ERROR_SUCCESS && error.is_error(
                    "AXUIElementSetMessagingTimeout",
                    timeout_status,
                    pid,
                ),
            },
    {
        if timeout_status == AX_ERROR_SUCCESS {
            Ok(SnapshotAxElement { pid, element })
        } else {
            Err(ax_error("AXUIElementSetMessagingTimeout", timeout_status, pid))
        }
    }

    /// The process that the element belongs to.
    pub fn pid(&self) -> (pid: i32)
        ensures
            pid == self.spec_pid(),
    {
        self.pid
    }

    /// The element itself.
    pub fn element(&self) -> (element: ElementId)
        ensures
            element == self.spec_element(),
    {
        self.element
    }

    /// Reads one attribute.
    fn copy_attribute<T, L: Fn() -> i32, R: FnOnce(&'static str) -> AttributeOutcome<T>>(
        &self,
        attribute: &'static str,
        set_timeout: &L,
        read: R,
    ) -> (result: Result<Option<T>, SnapshotAxError>)
        requires
            call_requires(*set_timeout, ()),
            call_ensures(*set_timeout, (), AX_ERROR_SUCCESS) ==> call_requires(read, (attribute,)),
        ensures
            attribute_read(self.spec_pid(), attribute, *set_timeout, read, result),
    {
        let timeout_status: i32 = set_timeout();
        if timeout_status != AX_ERROR_SUCCESS {
            return Err(ax_error("AXUIElementSetMessagingTimeout", timeout_status, self.pid));
        }
        let outcome = read(attribute);
        assert(call_ensures(read, (attribute,), outcome));
        attribute_value(
            outcome,
            "AXUIElementCopyAttributeValue",
            "AXUIElementCopyAttributeValue returned null",
            self.pid,
        )
    }

    /// The number of a window; a value of another type is an error.
    pub fn window_number<L: Fn() -> i32, R: FnOnce(&'static str) -> AttributeOutcome<Option<i64>>>(
        &self,
        set_timeout: &L,
        read: R,
    ) -> (number: Result<Option<i64>, SnapshotAxError>)
        requires
            call_requires(*set_timeout, ()),
            call_ensures(*set_timeout, (), AX_ERROR_SUCCESS) ==> call_requires(read, ("AXWindowNumber",)),
        ensures
            exists|value: Result<Option<Option<i64>>, SnapshotAxError>|
                {
                    &&& attribute_read(
                        self.spec_pid(),
                        "AXWindowNumber",
                        *set_timeout,
                        read,
                        value,
                    )
                    &&& #[trigger] typed_of(value, "AXWindowNumber type", self.spec_pid(), number)
                },
    {
        let value = self.copy_attribute("AXWindowNumber", set_timeout, read);
        typed_value(value, "AXWindowNumber type", self.pid)
    }

    /// The rectangle of an element: none without both parts, an error with one.
    pub fn frame<L: Fn() -> i32, R: FnOnce(&Vec<SnapshotAttribute>) -> MultipleOutcome>(
        &self,
        set_timeout: &L,
        read: R,
    ) -> (frame: Result<Option<AxFrame>, SnapshotAxError>)
        requires
            call_requires(*set_timeout, ()),
            forall|names: &Vec<SnapshotAttribute>|
                names@ == seq![SnapshotAttribute::Position, SnapshotAttribute::Size]
                    && call_ensures(*set_timeout, (), AX_ERROR_SUCCESS) ==> #[trigger]
                call_requires(read, (names,)),
        ensures
            exists|
                attributes: Vec<SnapshotAttribute>,
                values: Result<Vec<SnapshotAttributeResult>, SnapshotAxError>,
            |
                {
                    &&& attributes@ == seq![SnapshotAttribute::Position, SnapshotAttribute::Size]
                    &&& #[trigger] multiple_read(
                        self.spec_pid(),
                        &attributes,
                        *set_timeout,
                        read,
                        values,
                    )
                    &&& match values {
                        Err(error) => frame == Err::<Option<AxFrame>, SnapshotAxError>(error),
                        Ok(values) => frame_of(values@[0], values@[1], self.spec_pid(), frame),
                    }
                },
    {
        let mut attributes: Vec<SnapshotAttribute> = Vec::new();
        attributes.push(SnapshotAttribute::Position);
        attributes.push(SnapshotAttribute::Size);
        assert(attributes@ =~= seq![SnapshotAttribute::Position, SnapshotAttribute::Size]);
        let read_values = self.copy_multiple(&attributes, set_timeout, read);
        let mut values = match read_values {
            Err(error) => {
                return Err(error);
            },
            Ok(values) => values,
        };
        let ghost both = values@;
        assert(both.len() == 2);
        let position = values.remove(0);
        let size = values.remove(0);
        assert(position == both[0] && size == both[1]);
        match (position, size) {
            (Err(error), _) => Err(error),
            (_, Err(error)) => Err(error),
            (Ok(None), Ok(None)) => Ok(None),
            (
                Ok(Some(SnapshotAttributeValue::Point(origin))),
                Ok(Some(SnapshotAttributeValue::Size(size))),
            ) => Ok(Some(AxFrame { origin, size })),
            _ => Err(ax_error("AX frame result", WRAPPER_CONTRACT_ERROR, self.pid)),
        }
    }

    /// A range of the children: none without any, and every place has to hold an
    /// element; the first that does not is the error. The range has to fit the
    /// native type.
    pub fn children_range<
        L: Fn() -> i32,
        R: FnOnce(&'static str, isize, isize) -> AttributeOutcome<NativeList<ChildValue>>,
    >(&self, index: usize, maximum_count: usize, set_timeout: &L, read: R) -> (children: Result<
        Vec<SnapshotAxElement>,
        SnapshotAxError,
    >)
        requires
            call_requires(*set_timeout, ()),
            index <= isize::MAX && maximum_count <= isize::MAX && call_ensures(
                *set_timeout,
                (),
                AX_ERROR_SUCCESS,
            ) ==> call_requires(read, ("AXChildren", index as isize, maximum_count as isize)),
        ensures
            exists|timeout_status: i32|
                {
                    &&& #[trigger] call_ensures(*set_timeout, (), timeout_status)
                    &&& if timeout_status != AX_ERROR_SUCCESS {
                        children matches Err(error) && timeout_error(
                            error,
                            timeout_status,
                            self.spec_pid(),
                        )
                    } else if index > isize::MAX {
                        children matches Err(error) && error.is_error(
                            "AX children range index",
                            WRAPPER_CONTRACT_ERROR,
                            self.spec_pid(),
                        )
                    } else if maximum_count > isize::MAX {
                        children matches Err(error) && error.is_error(
                            "AX children range count",
                            WRAPPER_CONTRACT_ERROR,
                            self.spec_pid(),
                        )
                    } else {
                        exists|outcome: AttributeOutcome<NativeList<ChildValue>>| #[trigger]
                            call_ensures(
                                read,
                                ("AXChildren", index as isize, maximum_count as isize),
                                outcome,
                            ) && children_read(self.spec_pid(), outcome, children)
                    }
                },
    {
        let timeout_status: i32 = set_timeout();
        if timeout_status != AX_ERROR_SUCCESS {
            return Err(ax_error("AXUIElementSetMessagingTimeout", timeout_status, self.pid));
        }
        if index > isize::MAX as usize {
            return Err(ax_error("AX children range index", WRAPPER_CONTRACT_ERROR, self.pid));
        }
        if maximum_count > isize::MAX as usize {
            return Err(ax_error("AX children range count", WRAPPER_CONTRACT_ERROR, self.pid));
        }
        let outcome = read("AXChildren", index as isize, maximum_count as isize);
        assert(call_ensures(
            read,
            ("AXChildren", index as isize, maximum_count as isize),
            outcome,
        ));
        let listed = attribute_value(
            outcome,
            "AXUIElementCopyAttributeValues",
            "AXUIElementCopyAttributeValues returned null",
            self.pid,
        );
        let ghost found = listed;
        assert(attribute_of(
            outcome,
            "AXUIElementCopyAttributeValues",
            "AXUIElementCopyAttributeValues returned null",
            self.spec_pid(),
            found,
        ));
        let list = match listed {
            Err(error) => {
                return Err(error);
            },
            Ok(None) => {
                return Ok(Vec::new());
            },
            Ok(Some(list)) => list,
        };
        match list_values(list, self.pid) {
            Err(error) => Err(error),
            Ok(values) => self.children_of(values),
        }
    }

    /// The elements of a list of children.
    fn children_of(&self, values: Vec<ChildValue>) -> (children: Result<
        Vec<SnapshotAxElement>,
        SnapshotAxError,
    >)
        ensures
            children_listed(self.spec_pid(), values@, children),
    {
        let mut children: Vec<SnapshotAxElement> = Vec::new();
        let mut index: usize = 0;
        while index < values.len()
            invariant
                index <= values@.len(),
                children@.len() == index,
                forall|i: int|
                    0 <= i < index ==> child_ready(values@[i]) && (
                    #[trigger] children@[i]).spec_pid() == self.spec_pid()
                        && values@[i] == (ChildValue::Element {
                        element: children@[i].spec_element(),
                        timeout_status: AX_ERROR_SUCCESS,
                    }),
                forall|i: int| 0 <= i < index ==> child_ready(#[trigger] values@[i]),
            decreases values@.len() - index,
        {
            let child = match values[index] {
                ChildValue::Null => Err(
                    ax_error("CFArrayGetValueAtIndex", WRAPPER_CONTRACT_ERROR, self.pid),
                ),
                ChildValue::Foreign => Err(
                    ax_error("AX children element type", WRAPPER_CONTRACT_ERROR, self.pid),
                ),
                ChildValue::Element { element, timeout_status } => SnapshotAxElement::from_owned(
                    self.pid,
                    element,
                    timeout_status,
                ),
            };
            match child {
                Err(error) => {
                    assert(first_unusable(values@, index as int));
                    assert(child_error(values@[index as int], self.spec_pid(), error));
                    return Err(error);
                },
                Ok(child) => {
                    children.push(child);
                },
            }
            index = index + 1;
        }
        Ok(children)
    }

    /// Several attributes at once: as many values have to come back as were asked
    /// for, and each is decoded on its own.
    pub fn copy_multiple<L: Fn() -> i32, R: FnOnce(&Vec<SnapshotAttribute>) -> MultipleOutcome>(
        &self,
        attributes: &Vec<SnapshotAttribute>,
        set_timeout: &L,
        read: R,
    ) -> (results: Result<Vec<SnapshotAttributeResult>, SnapshotAxError>)
        requires
            call_requires(*set_timeout, ()),
            call_ensures(*set_timeout, (), AX_ERROR_SUCCESS) ==> call_requires(read, (attributes,)),
        ensures
            multiple_read(self.spec_pid(), attributes, *set_timeout, read, results),
    {
        let timeout_status: i32 = set_timeout();
        if timeout_status != AX_ERROR_SUCCESS {
            return Err(ax_error("AXUIElementSetMessagingTimeout", timeout_status, self.pid));
        }
        let outcome = read(attributes);
        assert(call_ensures(read, (attributes,), outcome));
        if !outcome.named {
            return Err(ax_error("CFStringCreateWithCString", WRAPPER_CONTRACT_ERROR, self.pid));
        }
        if !outcome.listed {
            return Err(ax_error("CFArrayCreate", WRAPPER_CONTRACT_ERROR, self.pid));
        }
        if outcome.status != AX_ERROR_SUCCESS {
            return Err(
                ax_error("AXUIElementCopyMultipleAttributeValues", outcome.status, self.pid),
            );
        }
        let list = match outcome.values {
            None => {
                return Err(
                    ax_error(
                        "AXUIElementCopyMultipleAttributeValues returned null",
                        WRAPPER_CONTRACT_ERROR,
                        self.pid,
                    ),
                );
            },
            Some(list) => list,
        };
        match list_values(list, self.pid) {
            Err(error) => Err(error),
            Ok(values) => self.decode_all(attributes, values),
        }
    }

    /// Decodes a list of values, each by the attribute at its place.
    fn decode_all(
        &self,
        attributes: &Vec<SnapshotAttribute>,
        values: Vec<Option<RawAttribute>>,
    ) -> (results: Result<Vec<SnapshotAttributeResult>, SnapshotAxError>)
        ensures
            all_decoded(self.spec_pid(), attributes@, values@, results),
    {
        if values.len() != attributes.len() {
            return Err(
                ax_error("AX multiple attribute result count", WRAPPER_CONTRACT_ERROR, self.pid),
            );
        }
        let ghost all = values@;
        let mut waiting = values;
        let mut results: Vec<SnapshotAttributeResult> = Vec::new();
        let mut index: usize = 0;
        assert(waiting@ =~= all.skip(0));
        while index < attributes.len()
            invariant
                index <= attributes@.len(),
                all.len() == attributes@.len(),
                waiting@ == all.skip(index as int),
                results@.len() == index,
                forall|i: int| 0 <= i < index ==> #[trigger] all[i] is Some,
                forall|i: int|
                    0 <= i < index ==> decoded_of(
                        attributes@[i],
                        all[i]->0,
                        self.spec_pid(),
                        #[trigger] results@[i],
                    ),
                all == values@,
            decreases attributes@.len() - index,
        {
            let value = waiting.remove(0);
            assert(value == all[index as int]);
            assert(waiting@ =~= all.skip(index + 1));
            match value {
                None => {
                    return Err(
                        ax_error("CFArrayGetValueAtIndex", WRAPPER_CONTRACT_ERROR, self.pid),
                    );
                },
                Some(value) => {
                    let ghost found = value;
                    let result = decode_attribute(attributes[index], value, self.pid);
                    assert(decoded_of(attributes@[index as int], found, self.spec_pid(), result));
                    results.push(result);
                },
            }
            index = index + 1;
        }
        Ok(results)
    }

    /// The range of visible characters; a value of another type is an error.
    pub fn visible_character_range<
        L: Fn() -> i32,
        R: FnOnce(&'static str) -> AttributeOutcome<Option<AxTextRange>>,
    >(&self, set_timeout: &L, read: R) -> (range: Result<Option<AxTextRange>, SnapshotAxError>)
        requires
            call_requires(*set_timeout, ()),
            call_ensures(*set_timeout, (), AX_ERROR_SUCCESS) ==> call_requires(
                read, ("AXVisibleCharacterRange",),
            ),
        ensures
            range_read(self.spec_pid(), *set_timeout, read, range),
    {
        let value = self.copy_attribute("AXVisibleCharacterRange", set_timeout, read);
        typed_value(value, "AXVisibleCharacterRange type", self.pid)
    }

    /// The text of a range; a value of another type is an error.
    pub fn string_for_range<
        L: Fn() -> i32,
        S: FnOnce(&'static str, AxTextRange) -> RangeOutcome,
    >(
        &self,
        range: AxTextRange,
        set_timeout: &L,
        read: S,
    ) -> (text: Result<Option<String>, SnapshotAxError>)
        requires
            call_requires(*set_timeout, ()),
            call_ensures(*set_timeout, (), AX_ERROR_SUCCESS) ==> call_requires(
                read,
                ("AXStringForRange", range),
            ),
        ensures
            string_read(self.spec_pid(), range, *set_timeout, read, text),
    {
        let timeout_status: i32 = set_timeout();
        if timeout_status != AX_ERROR_SUCCESS {
            return Err(ax_error("AXUIElementSetMessagingTimeout", timeout_status, self.pid));
        }
        let outcome = read("AXStringForRange", range);
        assert(call_ensures(read, ("AXStringForRange", range), outcome));
        if !outcome.range_created {
            return Err(ax_error("AXValueCreate range", WRAPPER_CONTRACT_ERROR, self.pid));
        }
        let value = attribute_value(
            outcome.read,
            "AXUIElementCopyParameterizedAttributeValue",
            "AXStringForRange returned null",
            self.pid,
        );
        typed_value(value, "AXStringForRange type", self.pid)
    }

    /// The visible text: none where no range of it is known.
    pub fn visible_text<
        L: Fn() -> i32,
        R: FnOnce(&'static str) -> AttributeOutcome<Option<AxTextRange>>,
        S: FnOnce(&'static str, AxTextRange) -> RangeOutcome,
    >(&self, set_timeout: &L, read_range: R, read_string: S) -> (text: Result<
        Option<String>,
        SnapshotAxError,
    >)
        requires
            call_requires(*set_timeout, ()),
            call_ensures(*set_timeout, (), AX_ERROR_SUCCESS) ==> call_requires(
                read_range,
                ("AXVisibleCharacterRange",),
            ),
            forall|found: Result<Option<AxTextRange>, SnapshotAxError>| #[trigger]
                range_read(self.spec_pid(), *set_timeout, read_range, found) ==> (
                found matches Ok(Some(range)) ==> (call_ensures(
                    *set_timeout,
                    (),
                    AX_ERROR_SUCCESS,
                ) ==> call_requires(read_string, ("AXStringForRange", range)))),
        ensures
            exists|range: Result<Option<AxTextRange>, SnapshotAxError>|
                {
                    &&& #[trigger] range_read(self.spec_pid(), *set_timeout, read_range, range)
                    &&& match range {
                        Err(error) => text == Err::<Option<String>, SnapshotAxError>(error),
                        Ok(None) => text == Ok::<Option<String>, SnapshotAxError>(None),
                        Ok(Some(range)) => string_read(
                            self.spec_pid(),
                            range,
                            *set_timeout,
                            read_string,
                            text,
                        ),
                    }
                },
    {
        match self.visible_character_range(set_timeout, read_range) {
            Err(error) => Err(error),
            Ok(None) => Ok(None),
            Ok(Some(range)) => self.string_for_range(range, set_timeout, read_string),
        }
    }

    /// The element that an attribute names: an error for a value of another type
    /// or one whose timeout could not be set.
    fn copy_element<
        L: Fn() -> i32,
        R: FnOnce(&'static str) -> AttributeOutcome<Option<(ElementId, i32)>>,
    >(&self, attribute: &'static str, set_timeout: &L, read: R) -> (element: Result<
        Option<SnapshotAxElement>,
        SnapshotAxError,
    >)
        requires
            call_requires(*set_timeout, ()),
            call_ensures(*set_timeout, (), AX_ERROR_SUCCESS) ==> call_requires(read, (attribute,)),
        ensures
            element_read(self.spec_pid(), attribute, *set_timeout, read, element),
    {
        let value = self.copy_attribute(attribute, set_timeout, read);
        let ghost found = value;
        let element = match typed_value(value, "AX element attribute type", self.pid) {
            Err(error) => Err(error),
            Ok(None) => Ok(None),
            Ok(Some((element, timeout_status))) => match SnapshotAxElement::from_owned(
                self.pid,
                element,
                timeout_status,
            ) {
                Ok(window) => Ok(Some(window)),
                Err(error) => Err(error),
            },
        };
        assert(attribute_read(self.spec_pid(), attribute, *set_timeout, read, found));
        assert(element_of(found, self.spec_pid(), element));
        element
    }
}

/// An application whose windows are read.
#[derive(Clone, Copy, Debug, PartialEq, Eq)]
pub struct SnapshotAxApplication {
    element: SnapshotAxElement,
}

impl SnapshotAxApplication {
    pub closed spec fn spec_element(self) -> SnapshotAxElement {
        self.element
    }

    /// The application of a process.
    pub fn new(pid: i32, created: Option<ElementId>, timeout_status: i32) -> (result: Result<
        Self,
        SnapshotAxError,
    >)
        ensures
            match created {
                None => result matches Err(error) && error.is_error(
                    "AXUIElementCreateApplication",
                    WRAPPER_CONTRACT_ERROR,
                    pid,
                ),
                Some(element) => match result {
                    Ok(application) => timeout_status == AX_ERROR_SUCCESS
                        && application.spec_element().spec_pid() == pid
                        && application.spec_element().spec_element() == element,
                    Err(error) => timeout_status != AX_ERROR_SUCCESS && error.is_error(
                        "AXUIElementSetMessagingTimeout",
                        timeout_status,
                        pid,
                    ),
                },
            },
    {
        match created {
            None => Err(ax_error("AXUIElementCreateApplication", WRAPPER_CONTRACT_ERROR, pid)),
            Some(element) => match SnapshotAxElement::from_owned(pid, element, timeout_status) {
                Ok(element) => Ok(SnapshotAxApplication { element }),
                Err(error) => Err(error),
            },
        }
    }

    /// The process of the application.
    pub fn pid(&self) -> (pid: i32)
        ensures
            pid == self.spec_element().spec_pid(),
    {
        self.element.pid
    }

    /// The focused window: none without one.
    pub fn focused_window<
        L: Fn() -> i32,
        R: FnOnce(&'static str) -> AttributeOutcome<Option<(ElementId, i32)>>,
    >(&self, set_timeout: &L, read: R) -> (window: Result<
        Option<SnapshotAxElement>,
        SnapshotAxError,
    >)
        requires
            call_requires(*set_timeout, ()),
            call_ensures(*set_timeout, (), AX_ERROR_SUCCESS) ==> call_requires(read, ("AXFocusedWindow",)),
        ensures
            element_read(
                self.spec_element().spec_pid(),
                "AXFocusedWindow",
                *set_timeout,
                read,
                window,
            ),
    {
        self.element.copy_element("AXFocusedWindow", set_timeout, read)
    }
}

/// An attribute that an element does not have is never an error.
pub proof fn law_missing_attribute_is_no_error<T>(
    outcome: AttributeOutcome<T>,
    operation: &'static str,
    null_operation: &'static str,
    pid: i32,
    result: Result<Option<T>, SnapshotAxError>,
)
    requires
        outcome.named,
        is_missing(outcome.status),
        attribute_of(outcome, operation, null_operation, pid, result),
    ensures
        result == Ok::<Option<T>, SnapshotAxError>(None),
{
}

/// Attributes are asked for by their native names.
pub proof fn law_attributes_have_native_names(attribute: SnapshotAttribute, name: &'static str)
    requires
        call_ensures(SnapshotAttribute::name, (attribute,), name),
    ensures
        attribute is Role <==> name@ == "AXRole"@,
        attribute is Subrole <==> name@ == "AXSubrole"@,
        attribute is Title <==> name@ == "AXTitle"@,
        attribute is Description <==> name@ == "AXDescription"@,
        attribute is Value <==> name@ == "AXValue"@,
        attribute is Position <==> name@ == "AXPosition"@,
        attribute is Size <==> name@ == "AXSize"@,
{
    reveal_strlit("AXRole");
    reveal_strlit("AXSubrole");
    reveal_strlit("AXTitle");
    reveal_strlit("AXDescription");
    reveal_strlit("AXValue");
    reveal_strlit("AXPosition");
    reveal_strlit("AXSize");
    assert("AXRole"@[2] == 'R' && "AXRole"@.len() == 6);
    assert("AXSubrole"@[3] == 'u' && "AXSubrole"@[2] == 'S');
    assert("AXTitle"@[2] == 'T' && "AXDescription"@[2] == 'D' && "AXValue"@[2] == 'V');
    assert("AXPosition"@[2] == 'P' && "AXSize"@[3] == 'i' && "AXSize"@[2] == 'S');
}

/// An error keeps the call, the number and the process it was made of, and is a timeout by its number
/// alone.
pub proof fn law_errors_keep_their_parts(
    operation: &'static str,
    code: i32,
    pid: i32,
    error: SnapshotAxError,
    kept_operation: &'static str,
    kept_code: i32,
    kept_pid: i32,
    timeout: bool,
)
    requires
        call_ensures(ax_error, (operation, code, pid), error),
        call_ensures(SnapshotAxError::operation, (&error,), kept_operation),
        call_ensures(SnapshotAxError::code, (&error,), kept_code),
        call_ensures(SnapshotAxError::pid, (&error,), kept_pid),
        call_ensures(SnapshotAxError::is_timeout, (&error,), timeout),
    ensures
        kept_operation == operation && kept_code == code && kept_pid == pid,
        timeout <==> code == -25_204,
{
}

/// A decoded value is the one that was read and has the type of its attribute: a point for the position, a
/// size for the size, a text for any other. It is missing exactly where nothing, or an error that says so,
/// was read.
pub proof fn law_decoded_values_fit_their_attribute(
    attribute: SnapshotAttribute,
    value: RawAttribute,
    pid: i32,
    result: SnapshotAttributeResult,
)
    requires
        call_ensures(decode_attribute, (attribute, value, pid), result),
    ensures
        result is Ok && result->Ok_0 is Some ==> {
            let decoded = result->Ok_0->0;
            &&& decoded is Point <==> attribute is Position
            &&& decoded is Size <==> attribute is Size
            &&& decoded matches SnapshotAttributeValue::Point(point) ==> value
                == RawAttribute::Point(point)
            &&& decoded matches SnapshotAttributeValue::Size(size) ==> value == RawAttribute::Size(
                size,
            )
            &&& decoded matches SnapshotAttributeValue::Text(text) ==> value == RawAttribute::Text(
                text,
            )
        },
        (result is Ok && result->Ok_0 is None) <==> (value is Null || value == RawAttribute::Error(
            Some(((-25_205) as i32)),
        ) || value == RawAttribute::Error(Some(((-25_212) as i32)))),
        value is Text && attribute !is Position && attribute !is Size ==> result is Ok,
        value is Point && attribute is Position ==> result is Ok,
        value is Size && attribute is Size ==> result is Ok,
        result matches Err(error) ==> error.spec_pid() == pid,
        result is Err && value is Error && value->Error_0 is Some ==> result->Err_0.spec_code()
            == value->Error_0->0,
        result is Err && !(value is Error && value->Error_0 is Some) ==> result->Err_0.spec_code() == -1,
{
}

proof fn lemma_attribute_read<T, L: Fn() -> i32, R: FnOnce(&'static str) -> AttributeOutcome<T>>(
    pid: i32,
    attribute: &'static str,
    set_timeout: L,
    read: R,
    result: Result<Option<T>, SnapshotAxError>,
)
    requires
        attribute_read(pid, attribute, set_timeout, read, result),
    ensures
        result matches Err(error) ==> error.spec_pid() == pid,
        result is Ok ==> call_ensures(set_timeout, (), 0i32) && exists|
            outcome: AttributeOutcome<T>,
        | #[trigger]
            call_ensures(read, (attribute,), outcome) && outcome.named && (result->Ok_0 is Some
                ==> outcome.status == 0 && outcome.value == result->Ok_0) && (result->Ok_0 is None
                ==> outcome.status == -25_205 || outcome.status == -25_212),
{
}

/// A window number is the one that was read, after the timeout was set; it is missing only where the
/// application says so.
pub proof fn law_window_numbers_are_read<
    L: Fn() -> i32,
    R: FnOnce(&'static str) -> AttributeOutcome<Option<i64>>,
>(
    element: SnapshotAxElement,
    set_timeout: &L,
    read: R,
    number: Result<Option<i64>, SnapshotAxError>,
)
    requires
        call_ensures(SnapshotAxElement::window_number::<L, R>, (&element, set_timeout, read), number),
    ensures
        number matches Err(error) ==> error.spec_pid() == element.spec_pid(),
        number is Ok ==> call_ensures(*set_timeout, (), 0i32) && exists|
            outcome: AttributeOutcome<Option<i64>>,
        | #[trigger]
            call_ensures(read, ("AXWindowNumber",), outcome) && outcome.named && (number->Ok_0 is Some
                ==> outcome.status == 0 && outcome.value == Some(number->Ok_0)) && (
            number->Ok_0 is None ==> outcome.status == -25_205 || outcome.status == -25_212),
{
    let pid = element.spec_pid();
    let value = choose|value: Result<Option<Option<i64>>, SnapshotAxError>|
        {
            &&& attribute_read(pid, "AXWindowNumber", *set_timeout, read, value)
            &&& #[trigger] typed_of(value, "AXWindowNumber type", pid, number)
        };
    lemma_attribute_read(pid, "AXWindowNumber", *set_timeout, read, value);
}

/// A focused window is the element that was read, of the same process, and its timeout was set.
pub proof fn law_focused_windows_are_read<
    L: Fn() -> i32,
    R: FnOnce(&'static str) -> AttributeOutcome<Option<(ElementId, i32)>>,
>(
    application: SnapshotAxApplication,
    set_timeout: &L,
    read: R,
    window: Result<Option<SnapshotAxElement>, SnapshotAxError>,
)
    requires
        call_ensures(
            SnapshotAxApplication::focused_window::<L, R>,
            (&application, set_timeout, read),
            window,
        ),
    ensures
        window matches Err(error) ==> error.spec_pid() == application.spec_element().spec_pid(),
        window is Ok ==> call_ensures(*set_timeout, (), 0i32) && exists|
            outcome: AttributeOutcome<Option<(ElementId, i32)>>,
        | #[trigger]
            call_ensures(read, ("AXFocusedWindow",), outcome) && outcome.named && (
            window->Ok_0 is Some ==> outcome.status == 0 && outcome.value == Some(
                Some((window->Ok_0->0.spec_element(), 0i32)),
            ) && window->Ok_0->0.spec_pid() == application.spec_element().spec_pid()) && (
            window->Ok_0 is None ==> outcome.status == -25_205 || outcome.status == -25_212),
{
    let pid = application.spec_element().spec_pid();
    let value = choose|value: Result<Option<Option<(ElementId, i32)>>, SnapshotAxError>|
        {
            &&& attribute_read(pid, "AXFocusedWindow", *set_timeout, read, value)
            &&& #[trigger] element_of(value, pid, window)
        };
    lemma_attribute_read(pid, "AXFocusedWindow", *set_timeout, read, value);
}

/// A visible text is the text of the visible range: the range is read first, and the text of that range
/// next.
pub proof fn law_visible_text_is_that_of_the_range<
    L: Fn() -> i32,
    R: FnOnce(&'static str) -> AttributeOutcome<Option<AxTextRange>>,
    S: FnOnce(&'static str, AxTextRange) -> RangeOutcome,
>(
    element: SnapshotAxElement,
    set_timeout: &L,
    read_range: R,
    read_string: S,
    text: Result<Option<String>, SnapshotAxError>,
)
    requires
        call_ensures(
            SnapshotAxElement::visible_text::<L, R, S>,
            (&element, set_timeout, read_range, read_string),
            text,
        ),
    ensures
        text is Ok && text->Ok_0 is Some ==> exists|
            range: AxTextRange,
            asked: AttributeOutcome<Option<AxTextRange>>,
            told: RangeOutcome,
        |
            {
                &&& #[trigger] call_ensures(read_range, ("AXVisibleCharacterRange",), asked)
                &&& #[trigger] call_ensures(read_string, ("AXStringForRange", range), told)
                &&& asked.named && asked.status == 0 && asked.value == Some(Some(range))
                &&& told.range_created && told.read.named && told.read.status == 0
                &&& told.read.value == Some(text->Ok_0)
            },
{
    if text is Ok && text->Ok_0 is Some {
        let pid = element.spec_pid();
        let range = choose|range: Result<Option<AxTextRange>, SnapshotAxError>|
            {
                &&& #[trigger] range_read(pid, *set_timeout, read_range, range)
                &&& match range {
                    Err(error) => text == Err::<Option<String>, SnapshotAxError>(error),
                    Ok(None) => text == Ok::<Option<String>, SnapshotAxError>(None),
                    Ok(Some(range)) => string_read(pid, range, *set_timeout, read_string, text),
                }
            };
        let value = choose|value: Result<Option<Option<AxTextRange>>, SnapshotAxError>|
            {
                &&& attribute_read(pid, "AXVisibleCharacterRange", *set_timeout, read_range, value)
                &&& #[trigger] typed_of(value, "AXVisibleCharacterRange type", pid, range)
            };
        lemma_attribute_read(pid, "AXVisibleCharacterRange", *set_timeout, read_range, value);
    }
}

/// A frame is made of the position and the size that were read together, in this order; it is missing only
/// where both are.
pub proof fn law_frames_are_read_in_one<
    L: Fn() -> i32,
    R: FnOnce(&Vec<SnapshotAttribute>) -> MultipleOutcome,
>(element: SnapshotAxElement, set_timeout: &L, read: R, frame: Result<Option<AxFrame>, SnapshotAxError>)
    requires
        call_ensures(SnapshotAxElement::frame::<L, R>, (&element, set_timeout, read), frame),
    ensures
        frame matches Ok(Some(found)) ==> exists|names: Vec<SnapshotAttribute>, outcome: MultipleOutcome|
            {
                &&& #[trigger] call_ensures(read, (&names,), outcome)
                &&& names@ == seq![SnapshotAttribute::Position, SnapshotAttribute::Size]
                &&& outcome.status == 0
                &&& outcome.values matches Some(NativeList::Values(values)) && values@.len() == 2
                    && values@[0] == Some(RawAttribute::Point(found.origin)) && values@[1] == Some(
                    RawAttribute::Size(found.size),
                )
            },
        frame matches Err(error) ==> error.spec_pid() == element.spec_pid(),
{
    let pid = element.spec_pid();
    let (attributes, values) = choose|
        attributes: Vec<SnapshotAttribute>,
        values: Result<Vec<SnapshotAttributeResult>, SnapshotAxError>,
    |
        {
            &&& attributes@ == seq![SnapshotAttribute::Position, SnapshotAttribute::Size]
            &&& #[trigger] multiple_read(pid, &attributes, *set_timeout, read, values)
            &&& match values {
                Err(error) => frame == Err::<Option<AxFrame>, SnapshotAxError>(error),
                Ok(values) => frame_of(values@[0], values@[1], pid, frame),
            }
        };
    if let Ok(read_values) = values {
        let outcome = choose|outcome: MultipleOutcome| #[trigger]
            call_ensures(read, (&attributes,), outcome) && multiple_of(
                pid,
                attributes@,
                outcome,
                values,
            );
        assert(decoded_of(attributes@[0], outcome.values->0->Values_0@[0]->0, pid, read_values@[0]));
        assert(decoded_of(attributes@[1], outcome.values->0->Values_0@[1]->0, pid, read_values@[1]));
        assert(outcome.values->0->Values_0@[0] is Some);
        assert(outcome.values->0->Values_0@[1] is Some);
    }
}

/// Children are the elements that were read of the range that was asked for, in their order and of the same
/// process; every one of them had its timeout set.
pub proof fn law_children_are_read_in_order<
    L: Fn() -> i32,
    R: FnOnce(&'static str, isize, isize) -> AttributeOutcome<NativeList<ChildValue>>,
>(
    element: SnapshotAxElement,
    index: usize,
    maximum_count: usize,
    set_timeout: &L,
    read: R,
    children: Result<Vec<SnapshotAxElement>, SnapshotAxError>,
)
    requires
        call_ensures(
            SnapshotAxElement::children_range::<L, R>,
            (&element, index, maximum_count, set_timeout, read),
            children,
        ),
    ensures
        children is Ok && children->Ok_0@.len() > 0 ==> exists|
            outcome: AttributeOutcome<NativeList<ChildValue>>,
        |
            {
                &&& #[trigger] call_ensures(
                    read,
                    ("AXChildren", index as isize, maximum_count as isize),
                    outcome,
                )
                &&& outcome.status == 0
                &&& outcome.value matches Some(NativeList::Values(values)) && values@.len()
                    == children->Ok_0@.len() && forall|i: int|
                    0 <= i < children->Ok_0@.len() ==> values@[i] == (ChildValue::Element {
                        element: (#[trigger] children->Ok_0@[i]).spec_element(),
                        timeout_status: 0,
                    }) && children->Ok_0@[i].spec_pid() == element.spec_pid()
            },
        index > isize::MAX || maximum_count > isize::MAX ==> children is Err,
        children matches Err(error) ==> error.spec_pid() == element.spec_pid(),
{
}

/// Several attributes are read in one: as many values come out as were asked for, each decoded for the attribute
/// at its place. A read that was not made, failed or gave another count is an error of the element's process,
/// and a failed one keeps its number.
pub proof fn law_attributes_are_read_in_one<
    L: Fn() -> i32,
    R: FnOnce(&Vec<SnapshotAttribute>) -> MultipleOutcome,
>(
    element: SnapshotAxElement,
    attributes: &Vec<SnapshotAttribute>,
    set_timeout: &L,
    read: R,
    results: Result<Vec<SnapshotAttributeResult>, SnapshotAxError>,
)
    requires
        call_ensures(
            SnapshotAxElement::copy_multiple::<L, R>,
            (&element, attributes, set_timeout, read),
            results,
        ),
    ensures
        results is Ok ==> exists|outcome: MultipleOutcome|
            {
                &&& #[trigger] call_ensures(read, (attributes,), outcome)
                &&& call_ensures(*set_timeout, (), 0i32)
                &&& outcome.named && outcome.listed && outcome.status == 0
                &&& outcome.values is Some && outcome.values->0 is Values
                &&& outcome.values->0->Values_0@.len() == attributes@.len()
                &&& results->Ok_0@.len() == attributes@.len()
                &&& forall|i: int|
                    0 <= i < attributes@.len() ==> outcome.values->0->Values_0@[i] is Some
                        && decoded_of(
                        attributes@[i],
                        outcome.values->0->Values_0@[i]->0,
                        element.spec_pid(),
                        #[trigger] results->Ok_0@[i],
                    )
            },
        results matches Err(error) ==> error.spec_pid() == element.spec_pid() && (call_ensures(
            *set_timeout,
            (),
            error.spec_code(),
        ) || exists|outcome: MultipleOutcome| #[trigger]
            call_ensures(read, (attributes,), outcome) && (outcome.named && outcome.listed
                && outcome.status != 0 ==> error.spec_code() == outcome.status) && (!(outcome.named
                && outcome.listed) || outcome.status == 0 ==> error.spec_code() == -1)),
{
}

} // verus!
