//! First readings of focused elements, elements under the pointer, and windows.

use vstd::prelude::*;

use super::element;
use super::element::{value_length, ReadText, ReadWindow, MAX_STATIC_TEXT_VALUE_CHARS};
use super::types::{NativeAxError, NativeElement};
use crate::focused_field;
use crate::focused_field::{field_class, FieldClass};
use crate::text;
use crate::text::{as_text, char_count, is_text};
use crate::text_capture::policy::TextContentDecision;
use crate::window_list::{AxFrame, NativeWindow};

verus! {

/// The result of reading a number.
pub type ReadNumber = Result<Option<i64>, NativeAxError>;

/// The reads that identify a window.
pub struct WindowReads {
    pub role: ReadText,
    pub number: ReadNumber,
    pub pid: Result<Option<i32>, NativeAxError>,
    pub frame: Result<Option<AxFrame>, NativeAxError>,
    pub found: Option<i64>,
    pub title: ReadText,
}

impl WindowReads {
    pub open spec fn is_window(self) -> bool {
        self.role matches Ok(role) && text::text_view(role) == Some("AXWindow"@)
    }

    /// Whether the window has to be found by its frame.
    pub open spec fn unnumbered(self) -> bool {
        self.is_window() && (self.number matches Ok(number) && number is None)
    }

    pub open spec fn locates(self) -> bool {
        self.unnumbered() && (self.pid matches Ok(pid) && pid is Some) && (self.frame matches Ok(
            frame,
        ) && frame is Some)
    }

    /// The identifier, where no read failed.
    pub open spec fn id(self) -> Option<i64> {
        if !self.unnumbered() {
            self.number->Ok_0
        } else if self.locates() {
            self.found
        } else {
            None
        }
    }

    /// Whether the reads up to the title succeeded.
    pub open spec fn identified(self) -> bool {
        self.is_window() && self.number is Ok && (self.unnumbered() ==> self.pid is Ok
            && self.frame is Ok)
    }

    /// What the reads come to: the first error, nothing for another element.
    pub open spec fn outcome(self) -> ReadWindow {
        match self.role {
            Err(error) => Err(error),
            Ok(_) => if !self.is_window() {
                Ok(None)
            } else {
                match self.number {
                    Err(error) => Err(error),
                    Ok(_) => if self.unnumbered() && self.pid is Err {
                        Err(self.pid->Err_0)
                    } else if self.unnumbered() && self.frame is Err {
                        Err(self.frame->Err_0)
                    } else {
                        match self.title {
                            Err(error) => Err(error),
                            Ok(title) => Ok(Some(NativeWindow { title, id: self.id() })),
                        }
                    },
                }
            },
        }
    }

    /// Whether each read can be made where the ones before it gave these answers.
    pub open spec fn ready<
        R: FnOnce() -> ReadText,
        N: FnOnce() -> ReadNumber,
        P: FnOnce() -> Result<Option<i32>, NativeAxError>,
        F: FnOnce() -> Result<Option<AxFrame>, NativeAxError>,
        I: FnOnce(i64, AxFrame) -> Option<i64>,
        T: FnOnce() -> ReadText,
    >(
        self,
        read_role: R,
        read_number: N,
        read_pid: P,
        read_frame: F,
        find_id: I,
        read_title: T,
    ) -> bool {
        &&& self.is_window() && call_ensures(read_role, (), self.role) ==> {
            &&& call_requires(read_number, ())
            &&& call_ensures(read_number, (), self.number) ==> {
                &&& self.unnumbered() ==> call_requires(read_pid, ())
                &&& self.unnumbered() && call_ensures(read_pid, (), self.pid) && self.pid is Ok
                    ==> {
                    &&& call_requires(read_frame, ())
                    &&& call_ensures(read_frame, (), self.frame) && self.locates()
                        ==> call_requires(
                        find_id,
                        ((self.pid->Ok_0)->0 as i64, (self.frame->Ok_0)->0),
                    )
                }
                &&& self.identified() && (self.unnumbered() ==> call_ensures(
                    read_pid,
                    (),
                    self.pid,
                ) && call_ensures(read_frame, (), self.frame)) ==> call_requires(read_title, ())
            }
        }
    }

    /// Whether these are the reads that were made.
    pub open spec fn performed<
        R: FnOnce() -> ReadText,
        N: FnOnce() -> ReadNumber,
        P: FnOnce() -> Result<Option<i32>, NativeAxError>,
        F: FnOnce() -> Result<Option<AxFrame>, NativeAxError>,
        I: FnOnce(i64, AxFrame) -> Option<i64>,
        T: FnOnce() -> ReadText,
    >(
        self,
        read_role: R,
        read_number: N,
        read_pid: P,
        read_frame: F,
        find_id: I,
        read_title: T,
    ) -> bool {
        &&& call_ensures(read_role, (), self.role)
        &&& self.is_window() ==> call_ensures(read_number, (), self.number)
        &&& self.unnumbered() ==> call_ensures(read_pid, (), self.pid)
        &&& self.unnumbered() && self.pid is Ok ==> call_ensures(read_frame, (), self.frame)
        &&& self.locates() ==> call_ensures(
            find_id,
            ((self.pid->Ok_0)->0 as i64, (self.frame->Ok_0)->0),
            self.found,
        )
        &&& self.identified() ==> call_ensures(read_title, (), self.title)
    }
}

/// Reads a window. One without a number is found by its frame.
pub fn window_snapshot<
    R: FnOnce() -> ReadText,
    N: FnOnce() -> ReadNumber,
    P: FnOnce() -> Result<Option<i32>, NativeAxError>,
    F: FnOnce() -> Result<Option<AxFrame>, NativeAxError>,
    I: FnOnce(i64, AxFrame) -> Option<i64>,
    T: FnOnce() -> ReadText,
>(
    read_role: R,
    read_number: N,
    read_pid: P,
    read_frame: F,
    find_id: I,
    read_title: T,
) -> (window: ReadWindow)
    requires
        call_requires(read_role, ()),
        forall|reads: WindowReads| #[trigger]
            reads.ready(read_role, read_number, read_pid, read_frame, find_id, read_title),
    ensures
        exists|reads: WindowReads|
            {
                &&& #[trigger] reads.performed(
                    read_role,
                    read_number,
                    read_pid,
                    read_frame,
                    find_id,
                    read_title,
                )
                &&& window == reads.outcome()
            },
{
    let ghost mut reads = WindowReads {
        role: Ok(None),
        number: Ok(None),
        pid: Ok(None),
        frame: Ok(None),
        found: None,
        title: Ok(None),
    };
    let role = read_role();
    proof {
        reads.role = role;
    }
    match role {
        Err(error) => {
            assert(reads.performed(
                read_role,
                read_number,
                read_pid,
                read_frame,
                find_id,
                read_title,
            ));
            return Err(error);
        },
        Ok(role) => {
            if !is_text(as_text(&role), "AXWindow") {
                assert(reads.performed(
                    read_role,
                    read_number,
                    read_pid,
                    read_frame,
                    find_id,
                    read_title,
                ));
                return Ok(None);
            }
        },
    }
    assert(reads.ready(read_role, read_number, read_pid, read_frame, find_id, read_title));
    let number = read_number();
    proof {
        reads.number = number;
    }
    let number = match number {
        Err(error) => {
            assert(reads.performed(
                read_role,
                read_number,
                read_pid,
                read_frame,
                find_id,
                read_title,
            ));
            return Err(error);
        },
        Ok(number) => number,
    };
    let id = match number {
        Some(id) => Some(id),
        None => {
            assert(reads.ready(read_role, read_number, read_pid, read_frame, find_id, read_title));
            let pid = read_pid();
            proof {
                reads.pid = pid;
            }
            let pid = match pid {
                Err(error) => {
                    assert(reads.performed(
                        read_role,
                        read_number,
                        read_pid,
                        read_frame,
                        find_id,
                        read_title,
                    ));
                    return Err(error);
                },
                Ok(pid) => pid,
            };
            assert(reads.ready(read_role, read_number, read_pid, read_frame, find_id, read_title));
            let frame = read_frame();
            proof {
                reads.frame = frame;
            }
            let frame = match frame {
                Err(error) => {
                    assert(reads.performed(
                        read_role,
                        read_number,
                        read_pid,
                        read_frame,
                        find_id,
                        read_title,
                    ));
                    return Err(error);
                },
                Ok(frame) => frame,
            };
            match (pid, frame) {
                (Some(pid), Some(frame)) => {
                    assert(reads.ready(read_role, read_number, read_pid, read_frame, find_id, read_title));
                    let found = find_id(pid as i64, frame);
                    proof {
                        reads.found = found;
                    }
                    found
                },
                _ => None,
            }
        },
    };
    assert(reads.ready(read_role, read_number, read_pid, read_frame, find_id, read_title));
    let title = read_title();
    proof {
        reads.title = title;
        assert(reads.performed(
            read_role,
            read_number,
            read_pid,
            read_frame,
            find_id,
            read_title,
        ));
    }
    match title {
        Err(error) => Err(error),
        Ok(title) => Ok(Some(NativeWindow { title, id })),
    }
}

/// The first reading of a focused element. The text that a later change is
/// compared with is kept apart from the element.
#[derive(Debug, PartialEq, Eq)]
pub struct FocusedElementSnapshot {
    pub window: Option<NativeWindow>,
    pub element: NativeElement,
    pub text_baseline: Option<String>,
    pub field_class: FieldClass,
}

/// Whether a focused element is not reported at all.
pub fn focused_element_is_excluded(field_class: FieldClass) -> (excluded: bool)
    ensures
        excluded == field_class is SecureText,
{
    matches!(field_class, FieldClass::SecureText)
}

/// The reads of an element.
pub struct ElementReads {
    pub subrole: ReadText,
    pub role: ReadText,
    pub window: ReadWindow,
    pub decision: Option<TextContentDecision>,
    pub value: ReadText,
    pub count: ReadNumber,
    pub title: ReadText,
}

/// What is known of an element once it was read.
#[derive(Debug, PartialEq, Eq)]
pub struct ElementReading {
    pub role: Option<String>,
    pub subrole: Option<String>,
    pub window: Option<NativeWindow>,
    pub decision: Option<TextContentDecision>,
    pub value: Option<String>,
    pub count: Option<i64>,
    pub title: Option<String>,
    pub field_class: FieldClass,
}

/// Whether elements of a class have a value to count.
pub open spec fn counted(field_class: FieldClass) -> bool {
    field_class.known_text() || field_class is KnownSafeNonText
}

impl ElementReads {
    /// The class that role and subrole give.
    pub open spec fn native_class(self) -> FieldClass {
        focused_field::class_of(
            text::text_view(self.role->Ok_0),
            text::text_view(self.subrole->Ok_0),
        )
    }

    /// The class as observed.
    pub open spec fn class(self, secure_input: bool) -> FieldClass {
        if secure_input {
            FieldClass::SecureText
        } else {
            self.native_class()
        }
    }

    /// Whether the element is read on: both roles are known, and it is no secret.
    pub open spec fn admitted(self) -> bool {
        self.subrole is Ok && self.role is Ok && !(self.native_class() is SecureText)
    }

    pub open spec fn decided(self) -> bool {
        self.admitted() && self.window is Ok
    }

    pub open spec fn allowed(self) -> bool {
        self.decision matches Some(decision) && decision.allowed
    }

    /// Whether the value is read: content may be captured here, and the element
    /// is safe or, where `reads_text` says so, a text field.
    pub open spec fn takes_value(self, secure_input: bool, reads_text: bool) -> bool {
        self.decided() && self.allowed() && (self.class(secure_input) is KnownSafeNonText
            || reads_text && self.class(secure_input).known_text())
    }

    pub open spec fn takes_count(self, secure_input: bool) -> bool {
        self.decided() && self.value is Ok && counted(self.class(secure_input))
    }

    pub open spec fn takes_title(self) -> bool {
        self.decided() && self.value is Ok && self.count is Ok
    }

    /// The value as it is kept: long static text is not.
    pub open spec fn kept_value(self, secure_input: bool) -> Option<String> {
        if self.class(secure_input) is KnownSafeNonText {
            element::kept(text::text_view(self.role->Ok_0), self.value->Ok_0)
        } else {
            self.value->Ok_0
        }
    }

    /// What the reads come to: the first error, nothing for a secret element.
    pub open spec fn outcome(self, secure_input: bool) -> Result<
        Option<ElementReading>,
        NativeAxError,
    > {
        if self.subrole is Err {
            Err(self.subrole->Err_0)
        } else if self.role is Err {
            Err(self.role->Err_0)
        } else if !self.admitted() {
            Ok(None)
        } else if self.window is Err {
            Err(self.window->Err_0)
        } else if self.value is Err {
            Err(self.value->Err_0)
        } else if self.count is Err {
            Err(self.count->Err_0)
        } else if self.title is Err {
            Err(self.title->Err_0)
        } else {
            Ok(
                Some(
                    ElementReading {
                        role: self.role->Ok_0,
                        subrole: self.subrole->Ok_0,
                        window: self.window->Ok_0,
                        decision: self.decision,
                        value: self.kept_value(secure_input),
                        count: self.count->Ok_0,
                        title: self.title->Ok_0,
                        field_class: self.class(secure_input),
                    },
                ),
            )
        }
    }

    /// Whether these are the reads that were made.
    pub open spec fn performed<
        S: FnOnce() -> ReadText,
        R: FnOnce() -> ReadText,
        W: FnOnce() -> ReadWindow,
        D: FnOnce(&Option<NativeWindow>) -> Option<TextContentDecision>,
        V: FnOnce() -> ReadText,
        C: FnOnce() -> ReadNumber,
        T: FnOnce() -> ReadText,
    >(
        self,
        reader: ElementReader<S, R, W, D, V, C, T>,
        secure_input: bool,
        reads_text: bool,
    ) -> bool {
        &&& call_ensures(reader.subrole, (), self.subrole)
        &&& self.subrole is Ok ==> call_ensures(reader.role, (), self.role)
        &&& self.admitted() ==> call_ensures(reader.window, (), self.window)
        &&& self.decided() ==> call_ensures(reader.decide, (&self.window->Ok_0,), self.decision)
        &&& self.takes_value(secure_input, reads_text) ==> call_ensures(
            reader.value,
            (),
            self.value,
        )
        &&& !self.takes_value(secure_input, reads_text) ==> self.value == Ok::<
            Option<String>,
            NativeAxError,
        >(None)
        &&& self.takes_count(secure_input) ==> call_ensures(reader.count, (), self.count)
        &&& !self.takes_count(secure_input) ==> self.count == Ok::<Option<i64>, NativeAxError>(None)
        &&& self.takes_title() ==> call_ensures(reader.title, (), self.title)
    }
}

/// How the parts of an element are read.
pub struct ElementReader<S, R, W, D, V, C, T> {
    pub subrole: S,
    pub role: R,
    pub window: W,
    pub decide: D,
    pub value: V,
    pub count: C,
    pub title: T,
}

impl<
    S: FnOnce() -> ReadText,
    R: FnOnce() -> ReadText,
    W: FnOnce() -> ReadWindow,
    D: FnOnce(&Option<NativeWindow>) -> Option<TextContentDecision>,
    V: FnOnce() -> ReadText,
    C: FnOnce() -> ReadNumber,
    T: FnOnce() -> ReadText,
> ElementReader<S, R, W, D, V, C, T> {
    /// Whether some window may get an allowing decision.
    pub open spec fn may_allow(self) -> bool {
        exists|window: &Option<NativeWindow>, decision: Option<TextContentDecision>|
            #![trigger call_ensures(self.decide, (window,), decision)]
            call_ensures(self.decide, (window,), decision) && (decision matches Some(made)
                && made.allowed)
    }

    /// Whether every part can be read; the value only outside secure input and
    /// where a decision may allow it.
    pub open spec fn ready(self, secure_input: bool) -> bool {
        &&& call_requires(self.subrole, ())
        &&& call_requires(self.role, ())
        &&& call_requires(self.window, ())
        &&& forall|window: &Option<NativeWindow>| #[trigger]
            call_requires(self.decide, (window,))
        &&& !secure_input && self.may_allow() ==> call_requires(self.value, ())
        &&& call_requires(self.count, ())
        &&& call_requires(self.title, ())
    }
}

/// Reads an element step by step; what must stay private is not read.
pub fn read_element<
    S: FnOnce() -> ReadText,
    R: FnOnce() -> ReadText,
    W: FnOnce() -> ReadWindow,
    D: FnOnce(&Option<NativeWindow>) -> Option<TextContentDecision>,
    V: FnOnce() -> ReadText,
    C: FnOnce() -> ReadNumber,
    T: FnOnce() -> ReadText,
>(
    reader: ElementReader<S, R, W, D, V, C, T>,
    secure_input: bool,
    reads_text: bool,
) -> (reading: Result<Option<ElementReading>, NativeAxError>)
    requires
        reader.ready(secure_input),
    ensures
        exists|reads: ElementReads|
            {
                &&& #[trigger] reads.performed(reader, secure_input, reads_text)
                &&& reading == reads.outcome(secure_input)
            },
{
    let ghost given = reader;
    let ghost mut reads = ElementReads {
        subrole: Ok(None),
        role: Ok(None),
        window: Ok(None),
        decision: None,
        value: Ok(None),
        count: Ok(None),
        title: Ok(None),
    };
    let subrole = (reader.subrole)();
    proof {
        reads.subrole = subrole;
    }
    let subrole = match subrole {
        Err(error) => {
            assert(reads.performed(given, secure_input, reads_text));
            return Err(error);
        },
        Ok(subrole) => subrole,
    };
    let role = (reader.role)();
    proof {
        reads.role = role;
    }
    let role = match role {
        Err(error) => {
            assert(reads.performed(given, secure_input, reads_text));
            return Err(error);
        },
        Ok(role) => role,
    };
    let native_class = field_class(as_text(&role), as_text(&subrole));
    if focused_element_is_excluded(native_class) {
        assert(reads.performed(given, secure_input, reads_text));
        return Ok(None);
    }
    let class = if secure_input {
        FieldClass::SecureText
    } else {
        native_class
    };
    let window = (reader.window)();
    proof {
        reads.window = window;
    }
    let window = match window {
        Err(error) => {
            assert(reads.performed(given, secure_input, reads_text));
            return Err(error);
        },
        Ok(window) => window,
    };
    let decision = (reader.decide)(&window);
    proof {
        reads.decision = decision;
    }
    let allowed = match &decision {
        Some(decision) => decision.is_allowed(),
        None => false,
    };
    let takes_value = allowed && match class {
        FieldClass::KnownSafeNonText => true,
        FieldClass::KnownText(_) => reads_text,
        FieldClass::SecureText => false,
        FieldClass::Unknown => false,
    };
    assert(takes_value ==> given.may_allow());
    let value = if takes_value {
        (reader.value)()
    } else {
        Ok(None)
    };
    proof {
        reads.value = value;
    }
    let value = match value {
        Err(error) => {
            assert(reads.performed(given, secure_input, reads_text));
            return Err(error);
        },
        Ok(value) => value,
    };
    let too_long = match &value {
        Some(found) => matches!(class, FieldClass::KnownSafeNonText) && is_text(
            as_text(&role),
            "AXStaticText",
        ) && char_count(found.as_str()) > MAX_STATIC_TEXT_VALUE_CHARS,
        None => false,
    };
    let value = if too_long {
        None
    } else {
        value
    };
    let takes_count = matches!(class, FieldClass::KnownText(_) | FieldClass::KnownSafeNonText);
    let count = if takes_count {
        (reader.count)()
    } else {
        Ok(None)
    };
    proof {
        reads.count = count;
    }
    let count = match count {
        Err(error) => {
            assert(reads.performed(given, secure_input, reads_text));
            return Err(error);
        },
        Ok(count) => count,
    };
    let title = (reader.title)();
    proof {
        reads.title = title;
        assert(reads.performed(given, secure_input, reads_text));
    }
    match title {
        Err(error) => Err(error),
        Ok(title) => {
            let reading = ElementReading {
                role,
                subrole,
                window,
                decision,
                value,
                count,
                title,
                field_class: class,
            };
            assert(reads.outcome(secure_input) == Ok::<Option<ElementReading>, NativeAxError>(
                Some(reading),
            ));
            Ok(Some(reading))
        },
    }
}

impl ElementReading {
    /// The element with its value; the decision goes with a value only.
    pub open spec fn spec_element(self) -> NativeElement {
        NativeElement {
            role: self.role,
            subrole: self.subrole,
            title: self.title,
            value: self.value,
            value_len: element::length_of(self.count, text::text_view(self.value)),
            capture_decision: if self.value is Some {
                self.decision
            } else {
                None
            },
        }
    }

    /// The focused element: the text of a text field becomes the baseline.
    pub open spec fn spec_focused(self) -> FocusedElementSnapshot {
        if self.field_class.known_text() {
            FocusedElementSnapshot {
                window: self.window,
                element: NativeElement {
                    value: None,
                    capture_decision: None,
                    ..self.spec_element()
                },
                text_baseline: self.value,
                field_class: self.field_class,
            }
        } else {
            FocusedElementSnapshot {
                window: self.window,
                element: self.spec_element(),
                text_baseline: None,
                field_class: self.field_class,
            }
        }
    }
}

/// Reads an element under the pointer. A text field's text is not read, and a
/// secret element is not reported.
pub fn element_snapshot<
    S: FnOnce() -> ReadText,
    R: FnOnce() -> ReadText,
    W: FnOnce() -> ReadWindow,
    D: FnOnce(&Option<NativeWindow>) -> Option<TextContentDecision>,
    V: FnOnce() -> ReadText,
    C: FnOnce() -> ReadNumber,
    T: FnOnce() -> ReadText,
>(reader: ElementReader<S, R, W, D, V, C, T>) -> (snapshot: Result<
    Option<(Option<NativeWindow>, NativeElement)>,
    NativeAxError,
>)
    requires
        reader.ready(false),
    ensures
        exists|reads: ElementReads|
            {
                &&& #[trigger] reads.performed(reader, false, false)
                &&& match reads.outcome(false) {
                    Ok(Some(reading)) => snapshot == Ok::<
                        Option<(Option<NativeWindow>, NativeElement)>,
                        NativeAxError,
                    >(Some((reading.window, reading.spec_element()))),
                    Ok(None) => snapshot == Ok::<
                        Option<(Option<NativeWindow>, NativeElement)>,
                        NativeAxError,
                    >(None),
                    Err(error) => snapshot == Err::<
                        Option<(Option<NativeWindow>, NativeElement)>,
                        NativeAxError,
                    >(error),
                }
            },
{
    match read_element(reader, false, false) {
        Err(error) => Err(error),
        Ok(None) => Ok(None),
        Ok(Some(reading)) => {
            let ghost read = reading;
            let value_len = value_length(reading.count, as_text(&reading.value));
            let capture_decision = if reading.value.is_some() {
                reading.decision
            } else {
                None
            };
            let element = NativeElement {
                role: reading.role,
                subrole: reading.subrole,
                title: reading.title,
                value: reading.value,
                value_len,
                capture_decision,
            };
            assert(element == read.spec_element());
            Ok(Some((reading.window, element)))
        },
    }
}

/// Reads the focused element. A secret element is not reported; under secure
/// input nothing of its content is read.
pub fn focused_element_snapshot<
    S: FnOnce() -> ReadText,
    R: FnOnce() -> ReadText,
    W: FnOnce() -> ReadWindow,
    D: FnOnce(&Option<NativeWindow>) -> Option<TextContentDecision>,
    V: FnOnce() -> ReadText,
    C: FnOnce() -> ReadNumber,
    T: FnOnce() -> ReadText,
>(reader: ElementReader<S, R, W, D, V, C, T>, secure_input: bool) -> (snapshot: Result<
    Option<FocusedElementSnapshot>,
    NativeAxError,
>)
    requires
        reader.ready(secure_input),
    ensures
        exists|reads: ElementReads|
            {
                &&& #[trigger] reads.performed(reader, secure_input, true)
                &&& match reads.outcome(secure_input) {
                    Ok(Some(reading)) => snapshot == Ok::<
                        Option<FocusedElementSnapshot>,
                        NativeAxError,
                    >(Some(reading.spec_focused())),
                    Ok(None) => snapshot == Ok::<Option<FocusedElementSnapshot>, NativeAxError>(
                        None,
                    ),
                    Err(error) => snapshot == Err::<Option<FocusedElementSnapshot>, NativeAxError>(
                        error,
                    ),
                }
            },
{
    match read_element(reader, secure_input, true) {
        Err(error) => Err(error),
        Ok(None) => Ok(None),
        Ok(Some(reading)) => {
            let ghost read = reading;
            let value_len = value_length(reading.count, as_text(&reading.value));
            let known_text = reading.field_class.is_known_text();
            let capture_decision = if reading.value.is_some() && !known_text {
                reading.decision
            } else {
                None
            };
            let (value, text_baseline) = if known_text {
                (None, reading.value)
            } else {
                (reading.value, None)
            };
            let snapshot = FocusedElementSnapshot {
                window: reading.window,
                element: NativeElement {
                    role: reading.role,
                    subrole: reading.subrole,
                    title: reading.title,
                    value,
                    value_len,
                    capture_decision,
                },
                text_baseline,
                field_class: reading.field_class,
            };
            assert(snapshot == read.spec_focused());
            Ok(Some(snapshot))
        },
    }
}

/// Under secure input, and without an allowing decision, no content of an
/// element is read, and none comes out.
pub proof fn law_unreadable_content_stays_unread(
    reads: ElementReads,
    secure_input: bool,
    reads_text: bool,
)
    ensures
        secure_input || !reads.allowed() ==> !reads.takes_value(secure_input, reads_text),
        reads.value == Ok::<Option<String>, NativeAxError>(None) ==> (reads.outcome(
            secure_input,
        ) matches Ok(Some(reading)) ==> reading.value is None
            && reading.spec_focused().text_baseline is None
            && reading.spec_focused().element.value is None),
{
}

/// The text of a text field never becomes part of the reported element.
pub proof fn law_text_is_not_an_element_value(reading: ElementReading)
    requires
        reading.field_class.known_text(),
    ensures
        reading.spec_focused().element.value is None,
        reading.spec_focused().element.capture_decision is None,
        reading.spec_focused().text_baseline == reading.value,
{
}

/// A window is read of a window element alone. Its title is the one that was read, and its identifier its
/// number, or without one what its process and frame lead to.
pub proof fn law_windows_carry_what_was_read<
    R: FnOnce() -> ReadText,
    N: FnOnce() -> ReadNumber,
    P: FnOnce() -> Result<Option<i32>, NativeAxError>,
    F: FnOnce() -> Result<Option<AxFrame>, NativeAxError>,
    I: FnOnce(i64, AxFrame) -> Option<i64>,
    T: FnOnce() -> ReadText,
>(
    read_role: R,
    read_number: N,
    read_pid: P,
    read_frame: F,
    find_id: I,
    read_title: T,
    window: ReadWindow,
)
    requires
        call_ensures(
            window_snapshot::<R, N, P, F, I, T>,
            (read_role, read_number, read_pid, read_frame, find_id, read_title),
            window,
        ),
    ensures
        window is Ok && window->Ok_0 is Some ==> {
            &&& exists|role: Option<String>| #[trigger]
                call_ensures(read_role, (), Ok::<Option<String>, NativeAxError>(role))
                    && text::text_view(role) == Some("AXWindow"@)
            &&& call_ensures(
                read_title,
                (),
                Ok::<Option<String>, NativeAxError>(window->Ok_0->0.title),
            )
            &&& exists|number: Option<i64>| #[trigger]
                call_ensures(read_number, (), Ok::<Option<i64>, NativeAxError>(number)) && (
                number is Some ==> window->Ok_0->0.id == number) && (number is None
                    && window->Ok_0->0.id is Some ==> exists|pid: i32, frame: AxFrame| #[trigger]
                    call_ensures(find_id, (pid as i64, frame), window->Ok_0->0.id) && call_ensures(
                        read_pid,
                        (),
                        Ok::<Option<i32>, NativeAxError>(Some(pid)),
                    ) && call_ensures(
                        read_frame,
                        (),
                        Ok::<Option<AxFrame>, NativeAxError>(Some(frame)),
                    ))
        },
        window is Ok && window->Ok_0 is None ==> exists|role: Option<String>| #[trigger]
            call_ensures(read_role, (), Ok::<Option<String>, NativeAxError>(role))
                && text::text_view(role) != Some("AXWindow"@),
{
    let reads = choose|reads: WindowReads|
        {
            &&& #[trigger] reads.performed(
                read_role,
                read_number,
                read_pid,
                read_frame,
                find_id,
                read_title,
            )
            &&& window == reads.outcome()
        };
    if window is Ok {
        assert(reads.role == Ok::<Option<String>, NativeAxError>(reads.role->Ok_0));
        assert(call_ensures(read_role, (), Ok::<Option<String>, NativeAxError>(reads.role->Ok_0)));
        if window->Ok_0 is Some {
            assert(reads.number == Ok::<Option<i64>, NativeAxError>(reads.number->Ok_0));
            assert(call_ensures(
                read_number,
                (),
                Ok::<Option<i64>, NativeAxError>(reads.number->Ok_0),
            ));
            assert(reads.title == Ok::<Option<String>, NativeAxError>(window->Ok_0->0.title));
            if reads.locates() {
                let pid = (reads.pid->Ok_0)->0;
                let frame = (reads.frame->Ok_0)->0;
                assert(reads.pid == Ok::<Option<i32>, NativeAxError>(Some(pid)));
                assert(reads.frame == Ok::<Option<AxFrame>, NativeAxError>(Some(frame)));
                assert(call_ensures(find_id, (pid as i64, frame), window->Ok_0->0.id) || !(
                window->Ok_0->0.id is Some));
            }
        }
    }
}

/// Whether no content of a window is read: the decision for it does not allow any.
pub open spec fn left_unread<
    S: FnOnce() -> ReadText,
    R: FnOnce() -> ReadText,
    W: FnOnce() -> ReadWindow,
    D: FnOnce(&Option<NativeWindow>) -> Option<TextContentDecision>,
    V: FnOnce() -> ReadText,
    C: FnOnce() -> ReadNumber,
    T: FnOnce() -> ReadText,
>(reader: ElementReader<S, R, W, D, V, C, T>, window: Option<NativeWindow>) -> bool {
    exists|decision: Option<TextContentDecision>| #[trigger]
        call_ensures(reader.decide, (&window,), decision) && !(decision is Some
            && decision->0.allowed)
}

/// Whether a value was read and there was none to keep: none at all, or static text of more than 256 characters.
pub open spec fn read_in_vain<
    S: FnOnce() -> ReadText,
    R: FnOnce() -> ReadText,
    W: FnOnce() -> ReadWindow,
    D: FnOnce(&Option<NativeWindow>) -> Option<TextContentDecision>,
    V: FnOnce() -> ReadText,
    C: FnOnce() -> ReadNumber,
    T: FnOnce() -> ReadText,
>(reader: ElementReader<S, R, W, D, V, C, T>, role: Option<String>) -> bool {
    exists|value: Option<String>| #[trigger]
        call_ensures(reader.value, (), Ok::<Option<String>, NativeAxError>(value)) && (value is None || (
        text::text_view(role) == Some("AXStaticText"@) && value->0@.len() > 256))
}

/// A focused element carries what was read of it. Its class comes of its role and subrole; under secure
/// input it is secure and without content. Text becomes the baseline of a text field, and the value of a
/// safe element, and only where a decision allows it.
pub proof fn law_focused_elements_carry_what_was_read<
    S: FnOnce() -> ReadText,
    R: FnOnce() -> ReadText,
    W: FnOnce() -> ReadWindow,
    D: FnOnce(&Option<NativeWindow>) -> Option<TextContentDecision>,
    V: FnOnce() -> ReadText,
    C: FnOnce() -> ReadNumber,
    T: FnOnce() -> ReadText,
>(
    reader: ElementReader<S, R, W, D, V, C, T>,
    secure_input: bool,
    snapshot: Result<Option<FocusedElementSnapshot>, NativeAxError>,
)
    requires
        call_ensures(
            focused_element_snapshot::<S, R, W, D, V, C, T>,
            (reader, secure_input),
            snapshot,
        ),
        snapshot is Ok && snapshot->Ok_0 is Some,
    ensures
        ({
            let shown = snapshot->Ok_0->0;
            let element = shown.element;
            &&& call_ensures(reader.role, (), Ok::<Option<String>, NativeAxError>(element.role))
            &&& call_ensures(reader.subrole, (), Ok::<Option<String>, NativeAxError>(element.subrole))
            &&& call_ensures(reader.title, (), Ok::<Option<String>, NativeAxError>(element.title))
            &&& call_ensures(
                reader.window,
                (),
                Ok::<Option<NativeWindow>, NativeAxError>(shown.window),
            )
            &&& focused_field::class_of(
                text::text_view(element.role),
                text::text_view(element.subrole),
            ) !is SecureText
            &&& secure_input ==> shown.field_class is SecureText && shown.text_baseline is None
                && element.value is None && element.value_len is None
            &&& !secure_input ==> shown.field_class == focused_field::class_of(
                text::text_view(element.role),
                text::text_view(element.subrole),
            )
            &&& shown.text_baseline is Some ==> shown.field_class is KnownText && call_ensures(
                reader.value,
                (),
                Ok::<Option<String>, NativeAxError>(shown.text_baseline),
            ) && reader.may_allow()
            &&& element.value is Some ==> shown.field_class is KnownSafeNonText && call_ensures(
                reader.value,
                (),
                Ok::<Option<String>, NativeAxError>(element.value),
            ) && reader.may_allow() && element.capture_decision is Some
                && element.capture_decision->0.allowed
            &&& element.value is None ==> element.capture_decision is None
            &&& shown.field_class is Unknown ==> element.value_len is None
            &&& element.value is Some && text::text_view(element.role) == Some("AXStaticText"@)
                ==> element.value->0@.len() <= 256
            &&& shown.field_class is KnownText && shown.text_baseline is None ==> left_unread(
                reader,
                shown.window,
            ) || call_ensures(reader.value, (), Ok::<Option<String>, NativeAxError>(None))
            &&& shown.field_class is KnownSafeNonText && element.value is None ==> left_unread(
                reader,
                shown.window,
            ) || read_in_vain(reader, element.role)
        }),
{
    let reads = choose|reads: ElementReads|
        {
            &&& #[trigger] reads.performed(reader, secure_input, true)
            &&& match reads.outcome(secure_input) {
                Ok(Some(reading)) => snapshot == Ok::<
                    Option<FocusedElementSnapshot>,
                    NativeAxError,
                >(Some(reading.spec_focused())),
                Ok(None) => snapshot == Ok::<Option<FocusedElementSnapshot>, NativeAxError>(None),
                Err(error) => snapshot == Err::<Option<FocusedElementSnapshot>, NativeAxError>(
                    error,
                ),
            }
        };
    let shown = snapshot->Ok_0->0;
    assert(reads.role == Ok::<Option<String>, NativeAxError>(shown.element.role));
    assert(reads.subrole == Ok::<Option<String>, NativeAxError>(shown.element.subrole));
    assert(reads.title == Ok::<Option<String>, NativeAxError>(shown.element.title));
    assert(reads.window == Ok::<Option<NativeWindow>, NativeAxError>(shown.window));
    assert(call_ensures(reader.decide, (&reads.window->Ok_0,), reads.decision));
    assert(reads.value == Ok::<Option<String>, NativeAxError>(reads.value->Ok_0));
    assert(reads.takes_value(secure_input, true) ==> call_ensures(
        reader.value,
        (),
        Ok::<Option<String>, NativeAxError>(reads.value->Ok_0),
    ));
    if shown.text_baseline is Some {
        assert(reads.value == Ok::<Option<String>, NativeAxError>(shown.text_baseline));
    }
    if shown.element.value is Some {
        assert(reads.value == Ok::<Option<String>, NativeAxError>(shown.element.value));
    }
}

/// An element under the pointer carries what was read of it. It has a value only as a safe element, and
/// only where a decision allows it; a secret element is not told.
pub proof fn law_pointed_elements_carry_what_was_read<
    S: FnOnce() -> ReadText,
    R: FnOnce() -> ReadText,
    W: FnOnce() -> ReadWindow,
    D: FnOnce(&Option<NativeWindow>) -> Option<TextContentDecision>,
    V: FnOnce() -> ReadText,
    C: FnOnce() -> ReadNumber,
    T: FnOnce() -> ReadText,
>(
    reader: ElementReader<S, R, W, D, V, C, T>,
    snapshot: Result<Option<(Option<NativeWindow>, NativeElement)>, NativeAxError>,
)
    requires
        call_ensures(element_snapshot::<S, R, W, D, V, C, T>, (reader,), snapshot),
        snapshot is Ok && snapshot->Ok_0 is Some,
    ensures
        ({
            let (window, element) = snapshot->Ok_0->0;
            let class = focused_field::class_of(
                text::text_view(element.role),
                text::text_view(element.subrole),
            );
            &&& call_ensures(reader.role, (), Ok::<Option<String>, NativeAxError>(element.role))
            &&& call_ensures(reader.subrole, (), Ok::<Option<String>, NativeAxError>(element.subrole))
            &&& call_ensures(reader.title, (), Ok::<Option<String>, NativeAxError>(element.title))
            &&& call_ensures(
                reader.window,
                (),
                Ok::<Option<NativeWindow>, NativeAxError>(window),
            )
            &&& class !is SecureText
            &&& element.value is Some ==> class is KnownSafeNonText && call_ensures(
                reader.value,
                (),
                Ok::<Option<String>, NativeAxError>(element.value),
            ) && element.capture_decision is Some && element.capture_decision->0.allowed
            &&& element.value is None ==> element.capture_decision is None
            &&& class is Unknown ==> element.value_len is None
            &&& element.value is Some && text::text_view(element.role) == Some("AXStaticText"@)
                ==> element.value->0@.len() <= 256
            &&& class is KnownSafeNonText && element.value is None ==> left_unread(reader, window)
                || read_in_vain(reader, element.role)
        }),
{
    let reads = choose|reads: ElementReads|
        {
            &&& #[trigger] reads.performed(reader, false, false)
            &&& match reads.outcome(false) {
                Ok(Some(reading)) => snapshot == Ok::<
                    Option<(Option<NativeWindow>, NativeElement)>,
                    NativeAxError,
                >(Some((reading.window, reading.spec_element()))),
                Ok(None) => snapshot == Ok::<
                    Option<(Option<NativeWindow>, NativeElement)>,
                    NativeAxError,
                >(None),
                Err(error) => snapshot == Err::<
                    Option<(Option<NativeWindow>, NativeElement)>,
                    NativeAxError,
                >(error),
            }
        };
    let (window, element) = snapshot->Ok_0->0;
    assert(reads.role == Ok::<Option<String>, NativeAxError>(element.role));
    assert(reads.subrole == Ok::<Option<String>, NativeAxError>(element.subrole));
    assert(reads.title == Ok::<Option<String>, NativeAxError>(element.title));
    assert(reads.window == Ok::<Option<NativeWindow>, NativeAxError>(window));
    assert(call_ensures(reader.decide, (&reads.window->Ok_0,), reads.decision));
    assert(reads.value == Ok::<Option<String>, NativeAxError>(reads.value->Ok_0));
    assert(reads.takes_value(false, false) ==> call_ensures(
        reader.value,
        (),
        Ok::<Option<String>, NativeAxError>(reads.value->Ok_0),
    ));
    if element.value is Some {
        assert(reads.value == Ok::<Option<String>, NativeAxError>(element.value));
    }
}

} // verus!
