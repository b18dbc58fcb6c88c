//! Accessibility elements, events and errors.

use time::OffsetDateTime;
use vstd::prelude::*;

use crate::focused_field;
use crate::focused_field::{field_class, FocusedField};
use crate::text;
use crate::text::{as_text, copy_text, format_decimal};
use crate::text_capture::policy::TextContentDecision;
use crate::text_capture::value::TextChange;
use crate::window_list::NativeWindow;

verus! {

/// The native side does not know the attribute.
pub const AX_ERROR_ATTRIBUTE_UNSUPPORTED: i32 = -25_205;

/// The attribute has no value.
pub const AX_ERROR_NO_VALUE: i32 = -25_212;

/// The notification is already registered.
pub const AX_ERROR_NOTIFICATION_ALREADY_REGISTERED: i32 = -25_209;

/// The notification is not registered.
pub const AX_ERROR_NOTIFICATION_NOT_REGISTERED: i32 = -25_210;

pub const AX_ERROR_SUCCESS: i32 = 0;

/// Names an accessibility element: two references to one element share it.
pub type ElementId = u64;

/// A range of characters in a text element.
#[derive(Clone, Copy, Debug, PartialEq, Eq, Structural)]
pub struct AxTextRange {
    pub location: isize,
    pub length: isize,
}

/// What is known of an element.
#[derive(Debug, PartialEq, Eq)]
pub struct NativeElement {
    pub role: Option<String>,
    pub subrole: Option<String>,
    pub title: Option<String>,
    pub value: Option<String>,
    pub value_len: Option<u64>,
    pub capture_decision: Option<TextContentDecision>,
}

/// A copy of an optional decision.
pub fn copy_decision(decision: &Option<TextContentDecision>) -> (copy: Option<TextContentDecision>)
    ensures
        copy == *decision,
{
    match decision {
        Some(decision) => Some(decision.clone()),
        None => None,
    }
}

impl Clone for NativeElement {
    fn clone(&self) -> (copy: NativeElement)
        ensures
            copy == *self,
    {
        NativeElement {
            role: copy_text(&self.role),
            subrole: copy_text(&self.subrole),
            title: copy_text(&self.title),
            value: copy_text(&self.value),
            value_len: self.value_len,
            capture_decision: copy_decision(&self.capture_decision),
        }
    }
}

/// A changed value. The time is missing when nothing was read of the target yet.
#[derive(Debug, PartialEq, Eq)]
pub struct NativeUiValueEvent {
    pub pid: i32,
    pub window: Option<NativeWindow>,
    pub element: NativeElement,
    pub change: Option<TextChange>,
    pub capture_decision: Option<TextContentDecision>,
    pub observed_at: Option<OffsetDateTime>,
}

/// One event of an observed application.
#[allow(inconsistent_fields)]
#[derive(Debug, PartialEq, Eq)]
pub enum NativeAxEvent {
    WindowFocused { pid: i32, window: NativeWindow, observed_at: OffsetDateTime },
    WindowTitleChanged { pid: i32, window: NativeWindow, observed_at: OffsetDateTime },
    UiFocused {
        pid: i32,
        generation: u64,
        window: Option<NativeWindow>,
        element: Option<NativeElement>,
        observed_at: OffsetDateTime,
    },
    UiValueChanged(NativeUiValueEvent),
    PageLoaded { pid: i32 },
}

/// What an observer reports: an event, or a focused field for internal use only.
#[derive(Debug, PartialEq, Eq)]
pub enum NativeAxObservation {
    Event(NativeAxEvent),
    FocusedFieldObserved { pid: i32, focused_field: Option<FocusedField> },
}

impl NativeAxEvent {
    pub open spec fn spec_internalized(self) -> NativeAxObservation {
        match self {
            NativeAxEvent::UiFocused { pid, generation, element, .. } => {
                NativeAxObservation::FocusedFieldObserved {
                    pid,
                    focused_field: match element {
                        Some(element) => Some(
                            FocusedField {
                                generation,
                                class: focused_field::class_of(
                                    text::text_view(element.role),
                                    text::text_view(element.subrole),
                                ),
                            },
                        ),
                        None => None,
                    },
                }
            },
            other => NativeAxObservation::Event(other),
        }
    }

    /// Reports a focus as a focused field only, without an event.
    pub fn internalize_focus(self) -> (observation: NativeAxObservation)
        ensures
            observation == self.spec_internalized(),
    {
        match self {
            NativeAxEvent::UiFocused { pid, generation, window: _, element, observed_at: _ } => {
                let focused_field = match &element {
                    Some(element) => Some(
                        FocusedField {
                            generation,
                            class: field_class(as_text(&element.role), as_text(&element.subrole)),
                        },
                    ),
                    None => None,
                };
                NativeAxObservation::FocusedFieldObserved { pid, focused_field }
            },
            other => NativeAxObservation::Event(other),
        }
    }
}

/// An element found at a position on the screen.
#[derive(Debug, PartialEq, Eq)]
pub struct NativeHitTest {
    pub pid: i32,
    pub window: Option<NativeWindow>,
    pub element: NativeElement,
}

/// A native call that failed.
#[derive(Clone, Copy, Debug, PartialEq, Eq)]
pub struct NativeAxError {
    pub operation: &'static str,
    pub code: i32,
}

impl NativeAxError {
    pub open spec fn spec_message(self) -> Seq<char> {
        self.operation@ + " failed with AXError "@ + text::decimal(self.code as int)
    }

    /// The call that failed.
    pub fn operation(&self) -> (operation: &'static str)
        ensures
            operation@ == self.operation@,
    {
        self.operation
    }

    /// The native error number.
    pub fn code(&self) -> (code: i32)
        ensures
            code == self.code,
    {
        self.code
    }

    /// Whether the native side does not know the attribute.
    pub fn is_attribute_unsupported(&self) -> (unsupported: bool)
        ensures
            unsupported == (self.code == AX_ERROR_ATTRIBUTE_UNSUPPORTED),
    {
        self.code == AX_ERROR_ATTRIBUTE_UNSUPPORTED
    }

    /// What went wrong.
    pub fn message(&self) -> (message: String)
        ensures
            message@ == self.spec_message(),
    {
        let mut message = self.operation.to_owned();
        message.append(" failed with AXError ");
        let number = format_decimal(self.code as i64);
        message.append(number.as_str());
        assert(message@ =~= self.spec_message());
        message
    }
}

/// The error of a native call.
pub fn native_error(operation: &'static str, code: i32) -> (error: NativeAxError)
    ensures
        error.operation@ == operation@,
        error.operation == operation,
        error.code == code,
{
    NativeAxError { operation, code }
}

/// The outcome of a native call that reports a status.
pub fn native_status(operation: &'static str, status: i32) -> (outcome: Result<(), NativeAxError>)
    ensures
        outcome == if status == AX_ERROR_SUCCESS {
            Ok::<(), NativeAxError>(())
        } else {
            Err(NativeAxError { operation, code: status })
        },
{
    if status == AX_ERROR_SUCCESS {
        Ok(())
    } else {
        Err(native_error(operation, status))
    }
}

/// A focus event that stays inside tells the focused field, by its generation and its class, or that
/// there is none; every other event is handed on as it is.
pub proof fn law_internal_focus_tells_the_field(event: NativeAxEvent, observation: NativeAxObservation)
    requires
        call_ensures(NativeAxEvent::internalize_focus, (event,), observation),
    ensures
        observation is FocusedFieldObserved <==> event is UiFocused,
        observation matches NativeAxObservation::Event(kept) ==> kept == event,
        event matches NativeAxEvent::UiFocused { pid, generation, element, .. } ==> (
        observation matches NativeAxObservation::FocusedFieldObserved {
            pid: told,
            focused_field,
        } && told == pid && focused_field.is_some() == element.is_some() && (
        focused_field is Some ==> focused_field->0.generation == generation
            && focused_field->0.class == focused_field::class_of(
            text::text_view(element->0.role),
            text::text_view(element->0.subrole),
        ))),
{
}

/// A native status is a success at zero alone; any other is an error of that operation and number.
pub proof fn law_only_zero_is_success(
    operation: &'static str,
    status: i32,
    outcome: Result<(), NativeAxError>,
)
    requires
        call_ensures(native_status, (operation, status), outcome),
    ensures
        outcome is Ok <==> status == 0,
        outcome matches Err(error) ==> error.operation == operation && error.code == status,
{
}

} // verus!
