//! Reading elements without reading what must stay private.

use vstd::prelude::*;

use super::types::{NativeAxError, AX_ERROR_ATTRIBUTE_UNSUPPORTED, AX_ERROR_NO_VALUE};
use crate::focused_field;
use crate::focused_field::{field_class, observed_field_class, FieldClass};
use crate::schema::App;
use crate::text;
use crate::text::{as_text, char_count, chars_of, is_text, spells, trimmed_lowercase};
use crate::text_capture::policy::{CapturePolicy, TextContentDecision};
use crate::window_list;
use crate::window_list::{
    same_window, window_id, window_title, AxFrame, AxPoint, AxSize, NativeWindow,
};

verus! {

/// Longest static text that is kept as a value, in characters.
pub const MAX_STATIC_TEXT_VALUE_CHARS: usize = 256;

/// What is read after a value changed, in this order: the class of the element
/// first, its value only then.
pub fn value_change_read_surface() -> (attributes: [&'static str; 4])
    ensures
        attributes@.len() == 4,
        attributes@[0]@ == "AXRole"@,
        attributes@[1]@ == "AXSubrole"@,
        attributes@[2]@ == "AXValue"@,
        attributes@[3]@ == "AXNumberOfCharacters"@,
{
    ["AXRole", "AXSubrole", "AXValue", "AXNumberOfCharacters"]
}

/// What was read of an element whose value changed.
#[derive(Debug, PartialEq, Eq)]
pub struct ValueSnapshot {
    pub value: Option<String>,
    pub value_len: Option<u64>,
    pub role: Option<String>,
    pub subrole: Option<String>,
    pub field_class: FieldClass,
    pub failure: Option<NativeAxError>,
}

/// What was read of an element's class. Secure input hides the class that its
/// registration goes by.
#[derive(Debug, PartialEq, Eq)]
pub struct ValueFieldSnapshot {
    pub role: Option<String>,
    pub subrole: Option<String>,
    pub field_class: FieldClass,
    pub registration_class: Option<FieldClass>,
    pub failure: Option<NativeAxError>,
}

/// The result of reading an attribute.
pub type ReadText = Result<Option<String>, NativeAxError>;

impl ValueFieldSnapshot {
    /// What secure input leaves of an element.
    pub open spec fn hidden() -> ValueFieldSnapshot {
        ValueFieldSnapshot {
            role: None,
            subrole: None,
            field_class: FieldClass::SecureText,
            registration_class: None,
            failure: None,
        }
    }

    /// The class that follows from role and subrole; a failed read leaves it
    /// unknown.
    pub open spec fn classified(role: ReadText, subrole: ReadText) -> ValueFieldSnapshot {
        match (role, subrole) {
            (Ok(role), Ok(subrole)) => {
                let class = focused_field::class_of(
                    text::text_view(role),
                    text::text_view(subrole),
                );
                ValueFieldSnapshot {
                    role,
                    subrole,
                    field_class: class,
                    registration_class: Some(class),
                    failure: None,
                }
            },
            (Err(error), _) => ValueFieldSnapshot {
                role: None,
                subrole: None,
                field_class: FieldClass::Unknown,
                registration_class: None,
                failure: Some(error),
            },
            (_, Err(error)) => ValueFieldSnapshot {
                role: None,
                subrole: None,
                field_class: FieldClass::Unknown,
                registration_class: None,
                failure: Some(error),
            },
        }
    }

    /// Whether nothing of the value may be read.
    pub open spec fn blocks_value(self) -> bool {
        self.failure is Some || self.field_class is SecureText || self.field_class is Unknown
    }
}

/// Reads the class of an element. Under secure input nothing is read.
pub fn value_field_snapshot<R: FnOnce() -> ReadText, S: FnOnce() -> ReadText>(
    read_role: R,
    read_subrole: S,
    secure_input: bool,
) -> (snapshot: ValueFieldSnapshot)
    requires
        !secure_input ==> call_requires(read_role, ()) && call_requires(read_subrole, ()),
    ensures
        secure_input ==> snapshot == ValueFieldSnapshot::hidden(),
        !secure_input ==> exists|role: ReadText, subrole: ReadText|
            {
                &&& #[trigger] call_ensures(read_role, (), role)
                &&& #[trigger] call_ensures(read_subrole, (), subrole)
                &&& snapshot == ValueFieldSnapshot::classified(role, subrole)
            },
{
    if secure_input {
        return ValueFieldSnapshot {
            role: None,
            subrole: None,
            field_class: FieldClass::SecureText,
            registration_class: None,
            failure: None,
        };
    }
    let role = read_role();
    let subrole = read_subrole();
    let ghost reads = (role, subrole);
    let snapshot = match (role, subrole) {
        (Ok(role), Ok(subrole)) => {
            let class = observed_field_class(as_text(&role), as_text(&subrole), false);
            let registration = field_class(as_text(&role), as_text(&subrole));
            ValueFieldSnapshot {
                role,
                subrole,
                field_class: class,
                registration_class: Some(registration),
                failure: None,
            }
        },
        (Err(error), _) => ValueFieldSnapshot {
            role: None,
            subrole: None,
            field_class: FieldClass::Unknown,
            registration_class: None,
            failure: Some(error),
        },
        (_, Err(error)) => ValueFieldSnapshot {
            role: None,
            subrole: None,
            field_class: FieldClass::Unknown,
            registration_class: None,
            failure: Some(error),
        },
    };
    assert(snapshot == ValueFieldSnapshot::classified(reads.0, reads.1));
    snapshot
}

/// What is left of an element whose value stays unread.
pub open spec fn suppressed(
    field_class: FieldClass,
    role: Option<String>,
    subrole: Option<String>,
    failure: Option<NativeAxError>,
) -> ValueSnapshot {
    ValueSnapshot { value: None, value_len: None, role, subrole, field_class, failure }
}

/// What is left of an element whose value stays unread.
pub fn suppressed_value_snapshot(
    field_class: FieldClass,
    role: Option<String>,
    subrole: Option<String>,
    failure: Option<NativeAxError>,
) -> (snapshot: ValueSnapshot)
    ensures
        snapshot == suppressed(field_class, role, subrole, failure),
{
    ValueSnapshot { value: None, value_len: None, role, subrole, field_class, failure }
}

/// A value as it is kept of a safe element: long static text is not.
pub open spec fn kept(role: Option<Seq<char>>, value: Option<String>) -> Option<String> {
    if role == Some("AXStaticText"@) && (value matches Some(text) && text@.len()
        > MAX_STATIC_TEXT_VALUE_CHARS) {
        None
    } else {
        value
    }
}

/// Whether the value of an element is read as a whole: it is safe, and content
/// is captured.
pub open spec fn gate_open(capture_text_content: bool, field_class: FieldClass) -> bool {
    capture_text_content && field_class is KnownSafeNonText
}

/// Reads a value only where an element is known to hold no free text.
pub fn gated_value<E, R: FnOnce() -> Result<Option<String>, E>>(
    capture_text_content: bool,
    field_class: FieldClass,
    role: Option<&str>,
    read: R,
) -> (value: Result<Option<String>, E>)
    requires
        gate_open(capture_text_content, field_class) ==> call_requires(read, ()),
    ensures
        !gate_open(capture_text_content, field_class) ==> value == Ok::<Option<String>, E>(None),
        gate_open(capture_text_content, field_class) ==> exists|found: Result<Option<String>, E>|
            {
                &&& #[trigger] call_ensures(read, (), found)
                &&& value == gated(text::str_view(role), found)
            },
{
    if !capture_text_content || !matches!(field_class, FieldClass::KnownSafeNonText) {
        return Ok(None);
    }
    let found = read();
    let ghost outcome = found;
    match found {
        Err(error) => Err(error),
        Ok(found) => {
            let too_long = match &found {
                Some(text) => is_text(role, "AXStaticText") && char_count(text.as_str())
                    > MAX_STATIC_TEXT_VALUE_CHARS,
                None => false,
            };
            let value = if too_long {
                Ok(None)
            } else {
                Ok(found)
            };
            assert(value == gated(text::str_view(role), outcome));
            value
        },
    }
}

/// What a gated read comes to.
pub open spec fn gated<E>(role: Option<Seq<char>>, found: Result<Option<String>, E>) -> Result<
    Option<String>,
    E,
> {
    match found {
        Ok(value) => Ok(kept(role, value)),
        Err(error) => Err(error),
    }
}

/// The length of a value: the native count where it is one, else the length of
/// what was read.
pub open spec fn length_of(character_count: Option<i64>, value: Option<Seq<char>>) -> Option<u64> {
    if character_count matches Some(count) && count >= 0 {
        Some(character_count->0 as u64)
    } else {
        match value {
            Some(text) => Some(text.len() as u64),
            None => None,
        }
    }
}

/// The length of a value.
pub fn value_length(character_count: Option<i64>, value: Option<&str>) -> (length: Option<u64>)
    ensures
        length == length_of(character_count, text::str_view(value)),
{
    match character_count {
        Some(count) => {
            if count >= 0 {
                return Some(count as u64);
            }
        },
        None => {},
    }
    match value {
        Some(text) => Some(char_count(text) as u64),
        None => None,
    }
}

/// Whether a changed value is read: content is captured, and the element is
/// known to be no secret.
pub open spec fn reads_value(classification: ValueFieldSnapshot, capture: bool) -> bool {
    capture && !classification.blocks_value()
}

/// What the reads of a changed value come to.
pub open spec fn snapshot_of(
    classification: ValueFieldSnapshot,
    value: ReadText,
    count: Result<Option<i64>, NativeAxError>,
) -> ValueSnapshot {
    if classification.blocks_value() {
        suppressed(
            classification.field_class,
            classification.role,
            classification.subrole,
            classification.failure,
        )
    } else {
        match (value, count) {
            (Err(error), _) => suppressed(
                FieldClass::Unknown,
                classification.role,
                classification.subrole,
                Some(error),
            ),
            (_, Err(error)) => suppressed(
                FieldClass::Unknown,
                classification.role,
                classification.subrole,
                Some(error),
            ),
            (Ok(value), Ok(count)) => {
                let found = if classification.field_class is KnownSafeNonText {
                    kept(text::text_view(classification.role), value)
                } else {
                    value
                };
                ValueSnapshot {
                    value: found,
                    value_len: length_of(count, text::text_view(found)),
                    role: classification.role,
                    subrole: classification.subrole,
                    field_class: classification.field_class,
                    failure: None,
                }
            },
        }
    }
}

/// Whether these are the reads that were made: the value only where it may be,
/// the count only after the value.
pub open spec fn value_reads<
    V: FnOnce() -> ReadText,
    C: FnOnce() -> Result<Option<i64>, NativeAxError>,
>(
    classification: ValueFieldSnapshot,
    capture_text_content: bool,
    read_value: V,
    read_count: C,
    value: ReadText,
    count: Result<Option<i64>, NativeAxError>,
) -> bool {
    &&& reads_value(classification, capture_text_content) ==> call_ensures(read_value, (), value)
    &&& !reads_value(classification, capture_text_content) ==> value == Ok::<
        Option<String>,
        NativeAxError,
    >(None)
    &&& !classification.blocks_value() && value is Ok ==> call_ensures(read_count, (), count)
}

/// Reads the value of a classified element.
pub fn value_snapshot_with<
    V: FnOnce() -> ReadText,
    C: FnOnce() -> Result<Option<i64>, NativeAxError>,
>(
    classification: ValueFieldSnapshot,
    capture_text_content: bool,
    read_value: V,
    read_count: C,
) -> (snapshot: ValueSnapshot)
    requires
        reads_value(classification, capture_text_content) ==> call_requires(read_value, ()),
        !classification.blocks_value() ==> call_requires(read_count, ()),
    ensures
        exists|value: ReadText, count: Result<Option<i64>, NativeAxError>|
            {
                &&& #[trigger] value_reads(
                    classification,
                    capture_text_content,
                    read_value,
                    read_count,
                    value,
                    count,
                )
                &&& snapshot == snapshot_of(classification, value, count)
            },
{
    let ghost given = classification;
    let ghost unread: ReadText = Ok(None);
    let ghost uncounted: Result<Option<i64>, NativeAxError> = Ok(None);
    if classification.failure.is_some() || matches!(
        classification.field_class,
        FieldClass::SecureText | FieldClass::Unknown
    ) {
        assert(value_reads(
            given,
            capture_text_content,
            read_value,
            read_count,
            unread,
            uncounted,
        ));
        return suppressed_value_snapshot(
            classification.field_class,
            classification.role,
            classification.subrole,
            classification.failure,
        );
    }
    let ValueFieldSnapshot { role, subrole, field_class, registration_class: _, failure: _ } =
        classification;
    let found = if !capture_text_content {
        Ok(None)
    } else {
        read_value()
    };
    let ghost value = found;
    let found = match found {
        Ok(found) => found,
        Err(error) => {
            assert(value_reads(
                given,
                capture_text_content,
                read_value,
                read_count,
                value,
                uncounted,
            ));
            return suppressed_value_snapshot(FieldClass::Unknown, role, subrole, Some(error));
        },
    };
    let too_long = match &found {
        Some(text) => matches!(field_class, FieldClass::KnownSafeNonText) && is_text(
            as_text(&role),
            "AXStaticText",
        ) && char_count(text.as_str()) > MAX_STATIC_TEXT_VALUE_CHARS,
        None => false,
    };
    let found = if too_long {
        None
    } else {
        found
    };
    let counted = read_count();
    let ghost count = counted;
    assert(value_reads(given, capture_text_content, read_value, read_count, value, count));
    match counted {
        Err(error) => suppressed_value_snapshot(FieldClass::Unknown, role, subrole, Some(error)),
        Ok(counted) => {
            let value_len = value_length(counted, as_text(&found));
            let snapshot = ValueSnapshot {
                value: found,
                value_len,
                role,
                subrole,
                field_class,
                failure: None,
            };
            assert(snapshot == snapshot_of(given, value, count));
            snapshot
        },
    }
}

/// Whether an application is one of the editors whose windows change under a
/// focused field.
pub open spec fn is_ide(name: Seq<char>) -> bool {
    let plain = text::ascii_lowercased(text::trimmed(name));
    plain == "cursor"@ || plain == "visual studio code"@ || plain == "code"@
}

fn names_ide(name: &str) -> (found: bool)
    ensures
        found == is_ide(name@),
{
    let plain = trimmed_lowercase(name);
    spells(&plain, "cursor") || spells(&plain, "visual studio code") || spells(&plain, "code")
}

/// A window title without the mark of unsaved changes.
pub open spec fn without_dirty(title: Seq<char>) -> Seq<char> {
    if title.len() >= 2 && (title[0] == '\u{25cf}' || title[0] == '\u{2022}') && title[1] == ' ' {
        title.skip(2)
    } else {
        title
    }
}

/// Whether two windows show the same surface: they are the same, or differ only
/// in the mark of unsaved changes.
pub open spec fn same_surface(
    previous: Option<NativeWindow>,
    current: Option<NativeWindow>,
) -> bool {
    ||| window_list::equal_windows(previous, current)
    ||| {
        &&& window_list::window_id_of(previous) is Some
        &&& window_list::window_id_of(previous) == window_list::window_id_of(current)
        &&& window_list::window_title_of(previous) is Some
        &&& window_list::window_title_of(current) is Some
        &&& without_dirty(window_list::window_title_of(previous)->0) == without_dirty(
            window_list::window_title_of(current)->0,
        )
    }
}

fn dirty_prefix(chars: &Vec<char>) -> (length: usize)
    ensures
        length <= chars@.len(),
        chars@.skip(length as int) == without_dirty(chars@),
{
    let marked = chars.len() >= 2 && (chars[0] == '\u{25cf}' || chars[0] == '\u{2022}') && chars[1]
        == ' ';
    if marked {
        2
    } else {
        assert(chars@.skip(0) =~= chars@);
        0
    }
}

/// Whether two titles are the same but for the mark of unsaved changes.
pub fn same_clean_title(left: &str, right: &str) -> (same: bool)
    ensures
        same == (without_dirty(left@) == without_dirty(right@)),
{
    let a = chars_of(left);
    let b = chars_of(right);
    let from_a: usize = dirty_prefix(&a);
    let from_b: usize = dirty_prefix(&b);
    let ghost clean_a = a@.skip(from_a as int);
    let ghost clean_b = b@.skip(from_b as int);
    assert(clean_a == without_dirty(left@) && clean_b == without_dirty(right@));
    if a.len() - from_a != b.len() - from_b {
        assert(clean_a.len() != clean_b.len());
        return false;
    }
    let length: usize = a.len() - from_a;
    let mut index: usize = 0;
    while index < length
        invariant
            index <= length,
            from_a + length == a.len(),
            from_b + length == b.len(),
            clean_a == a@.skip(from_a as int),
            clean_b == b@.skip(from_b as int),
            clean_a == without_dirty(left@),
            clean_b == without_dirty(right@),
            forall|i: int| 0 <= i < index ==> clean_a[i] == clean_b[i],
        decreases length - index,
    {
        assert(clean_a[index as int] == a@[from_a + index]);
        assert(clean_b[index as int] == b@[from_b + index]);
        if a[from_a + index] != b[from_b + index] {
            return false;
        }
        index = index + 1;
    }
    assert(clean_a =~= clean_b);
    true
}

/// Whether two windows show the same surface.
pub fn same_value_surface(
    previous: &Option<NativeWindow>,
    current: &Option<NativeWindow>,
) -> (same: bool)
    ensures
        same == same_surface(*previous, *current),
{
    if same_window(previous, current) {
        return true;
    }
    match (previous, current) {
        (Some(previous), Some(current)) => match (previous.id, current.id) {
            (Some(previous_id), Some(current_id)) => {
                match (&previous.title, &current.title) {
                    (Some(previous_title), Some(current_title)) => previous_id == current_id
                        && same_clean_title(previous_title.as_str(), current_title.as_str()),
                    _ => false,
                }
            },
            _ => false,
        },
        _ => false,
    }
}

/// What capturing a value came to.
#[derive(Debug, PartialEq, Eq)]
pub struct CapturedValue {
    pub snapshot: ValueSnapshot,
    pub decision: Option<TextContentDecision>,
    pub window: Option<NativeWindow>,
    pub surface_changed: bool,
}

/// The result of reading an element's window.
pub type ReadWindow = Result<Option<NativeWindow>, NativeAxError>;

/// What is left when the surface changed while a value was read.
pub open spec fn raced(window: Option<NativeWindow>, failure: Option<NativeAxError>) -> CapturedValue {
    CapturedValue {
        snapshot: suppressed(FieldClass::Unknown, None, None, failure),
        decision: None,
        window,
        surface_changed: true,
    }
}

/// The reads of one capture.
pub struct CaptureReads {
    pub before: ReadWindow,
    pub snapshot: ValueSnapshot,
    pub after: ReadWindow,
}

/// How a capture goes.
pub struct CapturePlan {
    pub window: Option<NativeWindow>,
    pub policy: CapturePolicy,
    pub app: App,
    pub enabled: bool,
}

impl CapturePlan {
    /// Whether the window is read around the value.
    pub open spec fn guarded(self) -> bool {
        self.enabled && is_ide(self.app.name@)
    }

    /// The window that the decision is made for.
    pub open spec fn window_now(self, reads: CaptureReads) -> Option<NativeWindow> {
        if self.guarded() {
            reads.before->Ok_0
        } else {
            self.window
        }
    }

    pub open spec fn decision(self, reads: CaptureReads) -> TextContentDecision {
        let shown = self.window_now(reads);
        self.policy.spec_decision(
            self.app,
            window_list::window_id_of(shown),
            window_list::window_title_of(shown),
        )
    }

    /// Whether the value may be read.
    pub open spec fn allowed(self, reads: CaptureReads) -> bool {
        self.enabled && self.decision(reads).allowed
    }

    /// What the reads come to. A value read while its surface changed is not
    /// kept.
    pub open spec fn outcome(self, reads: CaptureReads) -> CapturedValue {
        if !self.enabled {
            CapturedValue {
                snapshot: reads.snapshot,
                decision: None,
                window: self.window,
                surface_changed: false,
            }
        } else if self.guarded() && reads.before is Err {
            raced(None, Some(reads.before->Err_0))
        } else if self.guarded() && self.allowed(reads) {
            match reads.after {
                Err(error) => raced(None, Some(error)),
                Ok(after) => if same_surface(self.window_now(reads), after) {
                    CapturedValue {
                        snapshot: reads.snapshot,
                        decision: Some(self.decision(reads)),
                        window: after,
                        surface_changed: !same_surface(self.window, self.window_now(reads)),
                    }
                } else {
                    raced(after, None)
                },
            }
        } else {
            CapturedValue {
                snapshot: reads.snapshot,
                decision: Some(self.decision(reads)),
                window: self.window_now(reads),
                surface_changed: self.guarded() && !same_surface(
                    self.window,
                    self.window_now(reads),
                ),
            }
        }
    }

    /// Whether the value is read at all.
    pub open spec fn reaches_value(self, reads: CaptureReads) -> bool {
        !(self.guarded() && reads.before is Err)
    }

    /// Whether these are the reads that were made.
    pub open spec fn performed<W: Fn() -> ReadWindow, V: FnOnce(bool) -> ValueSnapshot>(
        self,
        read_window: W,
        read_value: V,
        reads: CaptureReads,
    ) -> bool {
        &&& self.guarded() ==> call_ensures(read_window, (), reads.before)
        &&& self.reaches_value(reads) ==> call_ensures(
            read_value,
            (self.allowed(reads),),
            reads.snapshot,
        )
        &&& self.guarded() && self.reaches_value(reads) && self.allowed(reads) ==> call_ensures(
            read_window,
            (),
            reads.after,
        )
    }
}

/// Captures a value. In an editor the window is read before and after: the
/// decision goes by what is shown, and a value that was read while the surface
/// changed is dropped.
pub fn capture_value_snapshot_with<W: Fn() -> ReadWindow, V: FnOnce(bool) -> ValueSnapshot>(
    window: Option<NativeWindow>,
    policy: &CapturePolicy,
    app: &App,
    capture_enabled: bool,
    read_window: &W,
    read_value: V,
) -> (captured: CapturedValue)
    requires
        (CapturePlan { window, policy: *policy, app: *app, enabled: capture_enabled }).guarded()
            ==> call_requires(*read_window, ()),
        forall|reads: CaptureReads|
            ((CapturePlan { window, policy: *policy, app: *app, enabled: capture_enabled }).guarded()
                ==> call_ensures(*read_window, (), reads.before) && reads.before is Ok)
                ==> call_requires(
                read_value,
                (#[trigger] (CapturePlan {
                    window,
                    policy: *policy,
                    app: *app,
                    enabled: capture_enabled,
                }).allowed(reads),),
            ),
    ensures
        exists|reads: CaptureReads|
            {
                &&& #[trigger] (CapturePlan {
                    window,
                    policy: *policy,
                    app: *app,
                    enabled: capture_enabled,
                }).performed(*read_window, read_value, reads)
                &&& captured == (CapturePlan {
                    window,
                    policy: *policy,
                    app: *app,
                    enabled: capture_enabled,
                }).outcome(reads)
            },
{
    let ghost plan = CapturePlan { window, policy: *policy, app: *app, enabled: capture_enabled };
    let ghost mut reads = CaptureReads {
        before: Ok(None),
        snapshot: vstd::pervasive::arbitrary(),
        after: Ok(None),
    };
    if !capture_enabled {
        assert(!plan.allowed(reads));
        let snapshot = read_value(false);
        proof {
            reads.snapshot = snapshot;
            assert(plan.performed(*read_window, read_value, reads));
        }
        return CapturedValue { snapshot, decision: None, window, surface_changed: false };
    }
    let ide = names_ide(app.name.as_str());
    let mut surface_changed = false;
    let mut current = window;
    if ide {
        let found = read_window();
        proof {
            reads.before = found;
        }
        match found {
            Err(error) => {
                assert(plan.performed(*read_window, read_value, reads));
                return CapturedValue {
                    snapshot: suppressed_value_snapshot(
                        FieldClass::Unknown,
                        None,
                        None,
                        Some(error),
                    ),
                    decision: None,
                    window: None,
                    surface_changed: true,
                };
            },
            Ok(found) => {
                surface_changed = !same_value_surface(&current, &found);
                current = found;
            },
        }
    }
    let decision = policy.decision(app, window_id(&current), window_title(&current));
    let allowed = decision.is_allowed();
    assert(allowed == plan.allowed(reads));
    let snapshot = read_value(allowed);
    proof {
        reads.snapshot = snapshot;
    }
    if ide && allowed {
        let found = read_window();
        proof {
            reads.after = found;
            assert(plan.performed(*read_window, read_value, reads));
        }
        return match found {
            Err(error) => CapturedValue {
                snapshot: suppressed_value_snapshot(FieldClass::Unknown, None, None, Some(error)),
                decision: None,
                window: None,
                surface_changed: true,
            },
            Ok(found) => {
                if same_value_surface(&current, &found) {
                    CapturedValue {
                        snapshot,
                        decision: Some(decision),
                        window: found,
                        surface_changed,
                    }
                } else {
                    CapturedValue {
                        snapshot: suppressed_value_snapshot(FieldClass::Unknown, None, None, None),
                        decision: None,
                        window: found,
                        surface_changed: true,
                    }
                }
            },
        };
    }
    assert(plan.performed(*read_window, read_value, reads));
    CapturedValue { snapshot, decision: Some(decision), window: current, surface_changed }
}

/// A required attribute as an optional one: an attribute that the element does
/// not have, or that has no value, is missing and no error.
pub fn optional_attribute<T>(value: Result<T, NativeAxError>) -> (optional: Result<
    Option<T>,
    NativeAxError,
>)
    ensures
        optional == match value {
            Ok(value) => Ok::<Option<T>, NativeAxError>(Some(value)),
            Err(error) => if error.code == AX_ERROR_ATTRIBUTE_UNSUPPORTED || error.code
                == AX_ERROR_NO_VALUE {
                Ok(None)
            } else {
                Err(error)
            },
        },
{
    match value {
        Ok(value) => Ok(Some(value)),
        Err(error) => {
            if error.code() == AX_ERROR_ATTRIBUTE_UNSUPPORTED || error.code() == AX_ERROR_NO_VALUE {
                Ok(None)
            } else {
                Err(error)
            }
        },
    }
}

/// A process number that belongs to a process.
pub fn positive_pid(pid: i32) -> (valid: Option<i32>)
    ensures
        valid == if pid > 0 {
            Some(pid)
        } else {
            None
        },
{
    if pid > 0 {
        Some(pid)
    } else {
        None
    }
}

/// A rectangle from its parts: none without both, an error where one of them
/// has the wrong type.
pub fn frame_of_parts(
    position: Option<Option<AxPoint>>,
    size: Option<Option<AxSize>>,
) -> (frame: Result<Option<AxFrame>, NativeAxError>)
    ensures
        match (position, size) {
            (Some(Some(origin)), Some(Some(size))) => frame == Ok::<Option<AxFrame>, NativeAxError>(
                Some(AxFrame { origin, size }),
            ),
            (Some(None), Some(_)) => frame matches Err(error) && error.code == -1
                && error.operation@ == "AXPosition attribute type"@,
            (Some(Some(_)), Some(None)) => frame matches Err(error) && error.code == -1
                && error.operation@ == "AXSize attribute type"@,
            _ => frame == Ok::<Option<AxFrame>, NativeAxError>(None),
        },
{
    match (position, size) {
        (Some(position), Some(size)) => match position {
            None => Err(NativeAxError { operation: "AXPosition attribute type", code: -1 }),
            Some(origin) => match size {
                None => Err(NativeAxError { operation: "AXSize attribute type", code: -1 }),
                Some(size) => Ok(Some(AxFrame { origin, size })),
            },
        },
        _ => Ok(None),
    }
}

/// A value is never read of a secure or unknown element, nor where content is
/// not captured.
pub proof fn law_private_values_are_not_read(
    role: ReadText,
    subrole: ReadText,
    capture_text_content: bool,
)
    ensures
        !reads_value(ValueFieldSnapshot::hidden(), capture_text_content),
        !reads_value(ValueFieldSnapshot::classified(role, subrole), false),
        role is Err || subrole is Err ==> !reads_value(
            ValueFieldSnapshot::classified(role, subrole),
            capture_text_content,
        ),
        reads_value(ValueFieldSnapshot::classified(role, subrole), capture_text_content) ==> {
            let class = ValueFieldSnapshot::classified(role, subrole).field_class;
            class.known_text() || class is KnownSafeNonText
        },
{
}

/// A value that was read while the surface changed is never kept.
pub proof fn law_raced_value_is_dropped(plan: CapturePlan, reads: CaptureReads)
    requires
        plan.guarded(),
        plan.allowed(reads),
        reads.before is Err || reads.after is Err || !same_surface(
            plan.window_now(reads),
            reads.after->Ok_0,
        ),
    ensures
        plan.outcome(reads).snapshot.value is None,
        plan.outcome(reads).decision is None,
        plan.outcome(reads).surface_changed,
{
}

/// The class of a field is read from its role and subrole, outside secure input only. An unreadable one
/// makes the field unknown and is told; secure input makes it secure and reads nothing.
pub proof fn law_field_classes_are_read_from_roles<
    R: FnOnce() -> ReadText,
    S: FnOnce() -> ReadText,
>(read_role: R, read_subrole: S, secure_input: bool, snapshot: ValueFieldSnapshot)
    requires
        call_ensures(
            value_field_snapshot::<R, S>,
            (read_role, read_subrole, secure_input),
            snapshot,
        ),
    ensures
        secure_input ==> snapshot.field_class is SecureText && snapshot.role is None
            && snapshot.subrole is None && snapshot.registration_class is None
            && snapshot.failure is None,
        !secure_input && snapshot.failure is None ==> {
            &&& call_ensures(read_role, (), Ok(snapshot.role))
            &&& call_ensures(read_subrole, (), Ok(snapshot.subrole))
            &&& snapshot.field_class == focused_field::class_of(
                text::text_view(snapshot.role),
                text::text_view(snapshot.subrole),
            )
            &&& snapshot.registration_class == Some(snapshot.field_class)
        },
        snapshot.failure is Some ==> !secure_input && snapshot.field_class is Unknown
            && snapshot.registration_class is None && snapshot.role is None,
{
    if !secure_input {
        let (role, subrole) = choose|role: ReadText, subrole: ReadText|
            {
                &&& #[trigger] call_ensures(read_role, (), role)
                &&& #[trigger] call_ensures(read_subrole, (), subrole)
                &&& snapshot == ValueFieldSnapshot::classified(role, subrole)
            };
        if snapshot.failure is None {
            assert(role == Ok::<Option<String>, NativeAxError>(snapshot.role));
            assert(subrole == Ok::<Option<String>, NativeAxError>(snapshot.subrole));
        }
    }
}

/// The value of an element is read exactly where text is captured and the element is safe and no text; a
/// static text of more than 256 characters is not kept.
pub proof fn law_only_safe_values_are_kept<E, R: FnOnce() -> Result<Option<String>, E>>(
    capture_text_content: bool,
    field_class: FieldClass,
    role: Option<&str>,
    read: R,
    value: Result<Option<String>, E>,
)
    requires
        call_ensures(
            gated_value::<E, R>,
            (capture_text_content, field_class, role, read),
            value,
        ),
    ensures
        !capture_text_content || field_class !is KnownSafeNonText ==> value == Ok::<
            Option<String>,
            E,
        >(None),
        value matches Ok(Some(kept)) ==> call_ensures(read, (), Ok::<Option<String>, E>(Some(kept))),
        text::str_view(role) == Some("AXStaticText"@) && value is Ok && value->Ok_0 is Some
            ==> value->Ok_0->0@.len() <= 256,
        value matches Err(error) ==> call_ensures(read, (), Err::<Option<String>, E>(error)),
        capture_text_content && field_class is KnownSafeNonText && value == Ok::<Option<String>, E>(
            None,
        ) ==> exists|found: Option<String>| #[trigger]
            call_ensures(read, (), Ok::<Option<String>, E>(found)) && (found is None || (
            text::str_view(role) == Some("AXStaticText"@) && found->0@.len() > 256)),
{
    if capture_text_content && field_class is KnownSafeNonText {
        let found = choose|found: Result<Option<String>, E>|
            {
                &&& #[trigger] call_ensures(read, (), found)
                &&& value == gated(text::str_view(role), found)
            };
        if let Ok(text) = found {
            assert(call_ensures(read, (), Ok::<Option<String>, E>(text)));
        }
        if let Err(error) = found {
            assert(call_ensures(read, (), Err::<Option<String>, E>(error)));
        }
    }
}

/// The length of a value is the number that is told, where it is not negative, and otherwise the number of
/// its characters.
pub proof fn law_told_lengths_come_first(
    character_count: Option<i64>,
    value: Option<&str>,
    length: Option<u64>,
)
    requires
        call_ensures(value_length, (character_count, value), length),
        value matches Some(text) ==> text@.len() <= u64::MAX,
    ensures
        (character_count matches Some(count) && count >= 0) ==> length is Some && length->0
            == character_count->0,
        !(character_count matches Some(count) && count >= 0) ==> (length is Some <==> value is Some),
        !(character_count matches Some(count) && count >= 0) && value is Some ==> length->0
            == value->0@.len(),
{
}

/// A value is read exactly of a readable field that is neither secure nor unknown, while text is captured.
/// A failed reading makes the field unknown and keeps nothing; a field that blocks reading is told as it is.
pub proof fn law_values_are_read_of_known_fields<
    V: FnOnce() -> ReadText,
    C: FnOnce() -> Result<Option<i64>, NativeAxError>,
>(
    classification: ValueFieldSnapshot,
    capture_text_content: bool,
    read_value: V,
    read_count: C,
    snapshot: ValueSnapshot,
)
    requires
        call_ensures(
            value_snapshot_with::<V, C>,
            (classification, capture_text_content, read_value, read_count),
            snapshot,
        ),
    ensures
        snapshot.role == classification.role && snapshot.subrole == classification.subrole,
        classification.failure is Some || classification.field_class is SecureText
            || classification.field_class is Unknown ==> snapshot.value is None
            && snapshot.value_len is None && snapshot.field_class == classification.field_class
            && snapshot.failure == classification.failure,
        snapshot.value is Some ==> capture_text_content && snapshot.field_class
            == classification.field_class && (classification.field_class is KnownText
            || classification.field_class is KnownSafeNonText) && call_ensures(
            read_value,
            (),
            Ok::<Option<String>, NativeAxError>(snapshot.value),
        ),
        snapshot.failure is Some ==> snapshot.value is None && snapshot.value_len is None,
        classification.failure is None && snapshot.failure is Some ==> snapshot.field_class is Unknown,
        classification.failure is None && classification.field_class is KnownText
            && capture_text_content && snapshot.failure is None ==> call_ensures(
            read_value,
            (),
            Ok::<Option<String>, NativeAxError>(snapshot.value),
        ),
{
}

/// Titles are compared without the mark of unsaved changes, and with everything else of them.
pub proof fn law_unsaved_marks_do_not_count(left: &str, right: &str, same: bool)
    requires
        call_ensures(same_clean_title, (left, right), same),
    ensures
        left@ == right@ ==> same,
        right@ == seq!['\u{25cf}', ' '] + left@ && !(left@.len() >= 2 && (left@[0] == '\u{25cf}'
            || left@[0] == '\u{2022}') && left@[1] == ' ') ==> same,
        right@ == seq!['\u{2022}', ' '] + left@ && !(left@.len() >= 2 && (left@[0] == '\u{25cf}'
            || left@[0] == '\u{2022}') && left@[1] == ' ') ==> same,
        same && left@ != right@ ==> (left@.len() > 0 && (left@[0] == '\u{25cf}' || left@[0]
            == '\u{2022}')) || (right@.len() > 0 && (right@[0] == '\u{25cf}' || right@[0]
            == '\u{2022}')),
{
    assert((seq!['\u{25cf}', ' '] + left@).skip(2) =~= left@);
    assert((seq!['\u{2022}', ' '] + left@).skip(2) =~= left@);
}

/// An attribute that is not supported or has no value is none; every other error stays one.
pub proof fn law_missing_attributes_are_none<T>(
    value: Result<T, NativeAxError>,
    optional: Result<Option<T>, NativeAxError>,
)
    requires
        call_ensures(optional_attribute::<T>, (value,), optional),
    ensures
        value matches Ok(found) ==> optional == Ok::<Option<T>, NativeAxError>(Some(found)),
        value matches Err(error) ==> (optional == Ok::<Option<T>, NativeAxError>(None)
            <==> error.code == -25_205 || error.code == -25_212),
        optional matches Err(error) ==> value == Err::<T, NativeAxError>(error),
{
}

/// A frame is known where both its parts are.
pub proof fn law_frames_need_both_parts(
    position: Option<Option<AxPoint>>,
    size: Option<Option<AxSize>>,
    frame: Result<Option<AxFrame>, NativeAxError>,
    pid: i32,
    valid: Option<i32>,
)
    requires
        call_ensures(frame_of_parts, (position, size), frame),
        call_ensures(positive_pid, (pid,), valid),
    ensures
        frame matches Ok(Some(found)) ==> position == Some(Some(found.origin)) && size == Some(
            Some(found.size),
        ),
        position is None || size is None ==> frame == Ok::<Option<AxFrame>, NativeAxError>(None),
        position == Some(None::<AxPoint>) && size is Some ==> frame is Err,
        valid is Some <==> pid >= 1,
        valid matches Some(kept) ==> kept == pid,
{
}

/// Outside editors a captured value is what was read under the decision for its window. In an editor the
/// window shown decides, and a value stays only where the same surface is shown before and after it is read.
pub proof fn law_captured_values_stay_on_their_surface(plan: CapturePlan, reads: CaptureReads)
    ensures
        !plan.enabled ==> plan.outcome(reads).decision is None && plan.outcome(reads).snapshot
            == reads.snapshot && !plan.outcome(reads).surface_changed,
        plan.enabled && !plan.guarded() ==> {
            &&& plan.outcome(reads).snapshot == reads.snapshot
            &&& plan.outcome(reads).window == plan.window
            &&& !plan.outcome(reads).surface_changed
            &&& plan.outcome(reads).decision == Some(
                plan.policy.spec_decision(
                    plan.app,
                    window_list::window_id_of(plan.window),
                    window_list::window_title_of(plan.window),
                ),
            )
        },
        plan.enabled && plan.guarded() && plan.outcome(reads).snapshot.value is Some ==> {
            &&& reads.before is Ok
            &&& plan.outcome(reads).decision == Some(
                plan.policy.spec_decision(
                    plan.app,
                    window_list::window_id_of(reads.before->Ok_0),
                    window_list::window_title_of(reads.before->Ok_0),
                ),
            )
            &&& plan.outcome(reads).decision->0.allowed ==> reads.after is Ok && same_surface(
                reads.before->Ok_0,
                reads.after->Ok_0,
            )
        },
        plan.enabled && plan.guarded() && reads.before is Err ==> plan.outcome(reads).surface_changed
            && plan.outcome(reads).snapshot.value is None && plan.outcome(reads).decision is None,
{
}

/// Two windows show the same surface where they are the same, or where number and title agree but for the mark of
/// unsaved changes. Windows with other numbers never do, unless neither number nor title tells them apart.
pub proof fn law_surfaces_are_told_by_number_and_title(
    previous: Option<NativeWindow>,
    current: Option<NativeWindow>,
    same: bool,
)
    requires
        call_ensures(same_value_surface, (&previous, &current), same),
    ensures
        previous is None && current is None ==> same,
        previous is None != current is None ==> !same,
        previous is Some && current is Some && previous->0.id != current->0.id ==> !same,
        previous is Some && current is Some && previous->0.id == current->0.id && text::text_view(
            previous->0.title,
        ) == text::text_view(current->0.title) ==> same,
        previous is Some && current is Some && previous->0.id is None && text::text_view(
            previous->0.title,
        ) != text::text_view(current->0.title) ==> !same,
{
}

/// While no content is captured a value is read as unallowed and comes out as read, without a decision. Outside
/// editors it is read under the decision for its window, which comes out with it.
pub proof fn law_captured_values_are_read_under_their_decision<
    W: Fn() -> ReadWindow,
    V: FnOnce(bool) -> ValueSnapshot,
>(
    window: Option<NativeWindow>,
    policy: &CapturePolicy,
    app: &App,
    capture_enabled: bool,
    read_window: &W,
    read_value: V,
    captured: CapturedValue,
)
    requires
        call_ensures(
            capture_value_snapshot_with::<W, V>,
            (window, policy, app, capture_enabled, read_window, read_value),
            captured,
        ),
    ensures
        !capture_enabled ==> call_ensures(read_value, (false,), captured.snapshot)
            && captured.decision is None && captured.window == window && !captured.surface_changed,
        capture_enabled && !is_ide(app.name@) ==> captured.decision == Some(
            policy.spec_decision(
                *app,
                window_list::window_id_of(window),
                window_list::window_title_of(window),
            ),
        ) && call_ensures(read_value, (captured.decision->0.allowed,), captured.snapshot)
            && captured.window == window && !captured.surface_changed,
        capture_enabled && is_ide(app.name@) && captured.snapshot.value is Some
            ==> captured.decision is Some && call_ensures(
            read_value,
            (captured.decision->0.allowed,),
            captured.snapshot,
        ),
{
    let plan = CapturePlan { window, policy: *policy, app: *app, enabled: capture_enabled };
    let reads = choose|reads: CaptureReads|
        {
            &&& #[trigger] plan.performed(*read_window, read_value, reads)
            &&& captured == plan.outcome(reads)
        };
    assert(captured == plan.outcome(reads));
}

/// A suppressed value keeps its class, its roles and what failed, and nothing of its content.
pub proof fn law_suppressed_values_keep_no_content(
    field_class: FieldClass,
    role: Option<String>,
    subrole: Option<String>,
    failure: Option<NativeAxError>,
    snapshot: ValueSnapshot,
)
    requires
        call_ensures(suppressed_value_snapshot, (field_class, role, subrole, failure), snapshot),
    ensures
        snapshot.value is None && snapshot.value_len is None,
        snapshot.field_class == field_class && snapshot.failure == failure,
        snapshot.role == role && snapshot.subrole == subrole,
{
}

} // verus!
