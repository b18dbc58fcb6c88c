//! Event schema: who was observed, where, and what happened.

use time::OffsetDateTime;
use vstd::prelude::*;

use crate::text::copy_text;

verus! {

/// A wall-clock time. The library only carries it.
#[verifier::external_type_specification]
#[verifier::external_body]
pub struct ExOffsetDateTime(OffsetDateTime);

/// The bit pattern of an IEEE 754 double-precision number.
///
/// Bit 63 is the sign, bits 52 to 62 the exponent, the rest the fraction. With
/// the sign removed, finite numbers order like their bit patterns.
#[derive(Clone, Copy, Debug)]
pub struct DoubleBits {
    pub bits: u64,
}

/// The smallest magnitude that is not finite.
pub const INFINITE_MAGNITUDE: u64 = 0x7ff0_0000_0000_0000;

/// The weight of the sign bit.
pub const SIGN_WEIGHT: u64 = 0x8000_0000_0000_0000;

impl DoubleBits {
    pub open spec fn negative(self) -> bool {
        self.bits >= SIGN_WEIGHT
    }

    pub open spec fn spec_magnitude(self) -> u64 {
        if self.negative() {
            (self.bits - SIGN_WEIGHT) as u64
        } else {
            self.bits
        }
    }

    pub open spec fn finite(self) -> bool {
        self.spec_magnitude() < INFINITE_MAGNITUDE
    }

    /// Whether the number is undefined.
    pub open spec fn undefined(self) -> bool {
        self.spec_magnitude() > INFINITE_MAGNITUDE
    }

    /// The absolute value.
    pub fn magnitude(self) -> (magnitude: DoubleBits)
        ensures
            magnitude.bits == self.spec_magnitude(),
    {
        if self.bits >= SIGN_WEIGHT {
            DoubleBits { bits: self.bits - SIGN_WEIGHT }
        } else {
            self
        }
    }

    /// Whether the number is neither infinite nor undefined.
    pub fn is_finite(self) -> (finite: bool)
        ensures
            finite == self.finite(),
    {
        self.magnitude().bits < INFINITE_MAGNITUDE
    }

    /// Whether the sign bit is set.
    pub fn is_negative(self) -> (negative: bool)
        ensures
            negative == self.negative(),
    {
        self.bits >= SIGN_WEIGHT
    }
}

impl PartialEq for DoubleBits {
    /// Whether two numbers are the same: both zeros are, and an undefined number is
    /// like no other, not even itself.
    fn eq(&self, other: &DoubleBits) -> (same: bool) {
        let first = self.magnitude();
        let second = other.magnitude();
        if first.bits > INFINITE_MAGNITUDE || second.bits > INFINITE_MAGNITUDE {
            false
        } else {
            self.bits == other.bits || (first.bits == 0 && second.bits == 0)
        }
    }
}

impl vstd::std_specs::cmp::PartialEqSpecImpl for DoubleBits {
    open spec fn obeys_eq_spec() -> bool {
        true
    }

    open spec fn eq_spec(&self, other: &DoubleBits) -> bool {
        &&& !self.undefined()
        &&& !other.undefined()
        &&& self.bits == other.bits || self.spec_magnitude() == 0 && other.spec_magnitude() == 0
    }
}

/// An application as events name it.
#[derive(Debug, PartialEq, Eq)]
pub struct App {
    pub name: String,
    pub bundle_id: Option<String>,
    pub pid: Option<i64>,
}

impl Clone for App {
    fn clone(&self) -> (copy: App)
        ensures
            copy == *self,
    {
        App { name: self.name.clone(), bundle_id: copy_text(&self.bundle_id), pid: self.pid }
    }
}

/// A window as events name it.
#[derive(Debug, PartialEq, Eq)]
pub struct Window {
    pub title: Option<String>,
    pub id: Option<i64>,
}

impl Clone for Window {
    fn clone(&self) -> (copy: Window)
        ensures
            copy == *self,
    {
        Window { title: copy_text(&self.title), id: self.id }
    }
}

/// A user-interface element as events name it.
#[derive(Debug, PartialEq, Eq)]
pub struct Element {
    pub role: Option<String>,
    pub title: Option<String>,
    pub value: Option<String>,
}

/// The browser surface that an event was captured on.
#[derive(Debug, PartialEq, Eq)]
pub struct CaptureContext {
    pub website_host: Option<String>,
    pub url: Option<String>,
}

impl CaptureContext {
    pub open spec fn empty() -> CaptureContext {
        CaptureContext { website_host: None, url: None }
    }
}

impl Default for CaptureContext {
    fn default() -> (context: CaptureContext)
        ensures
            context == CaptureContext::empty(),
    {
        CaptureContext { website_host: None, url: None }
    }
}

impl Clone for CaptureContext {
    fn clone(&self) -> (copy: CaptureContext)
        ensures
            copy == *self,
    {
        CaptureContext { website_host: copy_text(&self.website_host), url: copy_text(&self.url) }
    }
}

/// What kind of text a field takes.
#[derive(Clone, Copy, Debug, PartialEq, Eq, Structural)]
pub enum FieldKind {
    Text,
    Search,
    Url,
    Email,
    Number,
    Other,
}

impl FieldKind {
    pub open spec fn spec_name(self) -> Seq<char> {
        match self {
            FieldKind::Text => "text"@,
            FieldKind::Search => "search"@,
            FieldKind::Url => "url"@,
            FieldKind::Email => "email"@,
            FieldKind::Number => "number"@,
            FieldKind::Other => "other"@,
        }
    }

    /// The name under which events carry the kind.
    pub fn as_str(self) -> (name: &'static str)
        ensures
            name@ == self.spec_name(),
    {
        match self {
            FieldKind::Text => "text",
            FieldKind::Search => "search",
            FieldKind::Url => "url",
            FieldKind::Email => "email",
            FieldKind::Number => "number",
            FieldKind::Other => "other",
        }
    }
}

/// What a keystroke did.
#[derive(Clone, Copy, Debug, PartialEq, Eq, Structural)]
pub enum InputKeyKind {
    Text,
    Shortcut,
    Navigation,
    Delete,
    Other,
}

/// A modifier key held during a keystroke.
#[derive(Clone, Copy, Debug, PartialEq, Eq, Structural)]
pub enum Modifier {
    Cmd,
    Shift,
    Opt,
    Ctrl,
    Fn,
}

/// Where a scroll moved the content.
#[derive(Clone, Copy, Debug, PartialEq, Eq, Structural)]
pub enum ScrollDirection {
    Up,
    Down,
    Left,
    Right,
}

/// The mouse button of a click.
#[derive(Clone, Copy, Debug, PartialEq, Eq, Structural)]
pub enum ClickButton {
    Left,
    Right,
    Other,
}

/// How a clipboard change came about.
#[derive(Clone, Copy, Debug, PartialEq, Eq, Structural)]
pub enum ClipboardOrigin {
    CopyShortcut,
    Unknown,
}

/// What a clipboard holds.
#[derive(Clone, Copy, Debug, PartialEq, Eq, Structural)]
pub enum ContentKind {
    Text,
    Image,
    File,
    Other,
}

#[derive(Debug, PartialEq, Eq)]
pub struct InputKeyData {
    pub kind: InputKeyKind,
    pub modifiers: Vec<Modifier>,
    pub count: u64,
    pub combo: Option<String>,
    pub text: Option<String>,
    pub field_kind: Option<FieldKind>,
}

#[derive(Clone, Copy, Debug, PartialEq)]
pub struct InputScrollData {
    pub direction: ScrollDirection,
    pub amount: DoubleBits,
    pub count: u64,
}

#[derive(Debug, PartialEq, Eq)]
pub struct ClipboardCopyData {
    pub origin: ClipboardOrigin,
    pub content_kind: ContentKind,
    pub size_bytes: Option<u64>,
    pub text: Option<String>,
}

#[derive(Debug, PartialEq, Eq)]
pub struct ClipboardPasteData {
    pub content_kind: ContentKind,
    pub size_bytes: Option<u64>,
    pub text: Option<String>,
    pub field_kind: Option<FieldKind>,
}

#[derive(Debug, PartialEq, Eq)]
pub struct UiValueData {
    pub value_len: Option<u64>,
    pub text: Option<String>,
}

#[derive(Clone, Copy, Debug, PartialEq, Eq, Structural)]
pub struct UiFocusData {
    pub field_kind: Option<FieldKind>,
}

#[derive(Clone, Copy, Debug, PartialEq, Eq, Structural)]
pub struct UiClickData {
    pub button: ClickButton,
    pub click_count: u64,
}

/// The payload of an event that needs none.
#[derive(Clone, Copy, Debug, PartialEq, Eq, Structural)]
pub struct EmptyData {}

#[derive(Debug, PartialEq, Eq)]
pub struct ContentSnapshotData {
    pub text: Option<String>,
    pub char_count: u64,
    pub trigger: ContentSnapshotTrigger,
}

/// What made a content snapshot due.
#[derive(Clone, Copy, Debug, PartialEq, Eq, Structural)]
pub enum ContentSnapshotTrigger {
    FocusOut,
    Idle,
}

/// What happened, with the fields of its kind.
#[derive(Debug, PartialEq)]
pub enum EventData {
    AppActivate(EmptyData),
    AppLaunch(EmptyData),
    AppTerminate(EmptyData),
    WindowFocus(EmptyData),
    WindowTitle(EmptyData),
    UiFocus(UiFocusData),
    UiClick(UiClickData),
    UiValue(UiValueData),
    InputKey(InputKeyData),
    InputScroll(InputScrollData),
    ClipboardCopy(ClipboardCopyData),
    ClipboardPaste(ClipboardPasteData),
    BrowserNavigate(EmptyData),
    ContentSnapshot(ContentSnapshotData),
}

/// One event before it is stored.
#[derive(Debug, PartialEq)]
pub struct RawEvent {
    pub observed_at: Option<OffsetDateTime>,
    pub source: String,
    pub event_type: String,
    pub app: App,
    pub window: Option<Window>,
    pub element: Option<Element>,
    pub data: EventData,
    pub capture_context: CaptureContext,
}

/// A number's size is that of its opposite, and no less than zero. It is finite exactly below infinity, which has
/// no fraction and every bit of the exponent, and negative by its top bit alone.
pub proof fn law_numbers_are_told_by_their_bits(
    number: DoubleBits,
    opposite: DoubleBits,
    size: DoubleBits,
    opposite_size: DoubleBits,
    finite: bool,
    negative: bool,
)
    requires
        number.bits < 0x8000_0000_0000_0000,
        opposite.bits == number.bits + 0x8000_0000_0000_0000,
        call_ensures(DoubleBits::magnitude, (number,), size),
        call_ensures(DoubleBits::magnitude, (opposite,), opposite_size),
        call_ensures(DoubleBits::is_finite, (opposite,), finite),
        call_ensures(DoubleBits::is_negative, (opposite,), negative),
    ensures
        size.bits == number.bits && opposite_size.bits == number.bits,
        finite <==> number.bits < 0x7ff0_0000_0000_0000,
        negative,
        number.finite() == finite && !number.negative(),
{
}

/// Field kinds are told by their names, each by its own.
pub proof fn law_field_kinds_have_names(kind: FieldKind, name: &'static str)
    requires
        call_ensures(FieldKind::as_str, (kind,), name),
    ensures
        kind is Text <==> name@ == "text"@,
        kind is Search <==> name@ == "search"@,
        kind is Url <==> name@ == "url"@,
        kind is Email <==> name@ == "email"@,
        kind is Number <==> name@ == "number"@,
        kind is Other <==> name@ == "other"@,
{
    reveal_strlit("text");
    reveal_strlit("search");
    reveal_strlit("url");
    reveal_strlit("email");
    reveal_strlit("number");
    reveal_strlit("other");
    assert("text"@.len() == 4 && "url"@.len() == 3);
    assert("search"@.len() == 6 && "number"@.len() == 6);
    assert("email"@.len() == 5 && "other"@.len() == 5);
    assert("search"@[0] == 's' && "number"@[0] == 'n');
    assert("email"@[0] == 'e' && "other"@[0] == 'o');
}

} // verus!
