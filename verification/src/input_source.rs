//! Whether the keyboard input source composes text.

use vstd::prelude::*;

use crate::subject::Subject;
use crate::text;
use crate::text::{as_text, contains_ascii_lowercased};

verus! {

/// The type of a keyboard input source.
#[derive(Clone, Copy, Debug, PartialEq, Eq, Structural)]
pub enum InputSourceType {
    KeyboardInputMode,
    KeyboardLayout,
    Other,
}

/// What an input source was taken for.
#[derive(Clone, Copy, Debug, PartialEq, Eq, Structural)]
pub enum ImeClassification {
    KeyboardInputMode,
    KeyboardLayout,
    Other,
    InferredInputMethod,
    Unknown,
}

/// Whether an identifier names an input method, whatever its case.
pub open spec fn names_input_method(identifier: Option<&str>) -> bool {
    identifier matches Some(value) && text::contains(text::ascii_lowercased(value@), "inputmethod"@)
}

/// What an input source is taken for: its type decides; without a type, an
/// identifier that names an input method is taken as a hint.
pub open spec fn classified(
    source_type: Option<InputSourceType>,
    input_source_id: Option<&str>,
    input_mode_id: Option<&str>,
) -> ImeClassification {
    match source_type {
        Some(InputSourceType::KeyboardInputMode) => ImeClassification::KeyboardInputMode,
        Some(InputSourceType::KeyboardLayout) => ImeClassification::KeyboardLayout,
        Some(InputSourceType::Other) => ImeClassification::Other,
        None => if names_input_method(input_source_id) || names_input_method(input_mode_id) {
            ImeClassification::InferredInputMethod
        } else {
            ImeClassification::Unknown
        },
    }
}

/// Whether an input source has to be treated as composing text: everything but
/// a plain keyboard layout. No type means that it could not be read.
pub fn input_source_uses_ime(
    source_type: Option<InputSourceType>,
    input_source_id: Option<&str>,
    input_mode_id: Option<&str>,
) -> (uses_ime: bool)
    ensures
        uses_ime == !(classified(source_type, input_source_id, input_mode_id) is KeyboardLayout),
{
    !matches!(
        classify_input_source(source_type, input_source_id, input_mode_id),
        ImeClassification::KeyboardLayout
    )
}

/// Classifies an input source.
pub fn classify_input_source(
    source_type: Option<InputSourceType>,
    input_source_id: Option<&str>,
    input_mode_id: Option<&str>,
) -> (classification: ImeClassification)
    ensures
        classification == classified(source_type, input_source_id, input_mode_id),
{
    match source_type {
        Some(InputSourceType::KeyboardInputMode) => ImeClassification::KeyboardInputMode,
        Some(InputSourceType::KeyboardLayout) => ImeClassification::KeyboardLayout,
        Some(InputSourceType::Other) => ImeClassification::Other,
        None => {
            if hints_input_method(input_source_id) || hints_input_method(input_mode_id) {
                ImeClassification::InferredInputMethod
            } else {
                ImeClassification::Unknown
            }
        },
    }
}

fn hints_input_method(identifier: Option<&str>) -> (hint: bool)
    ensures
        hint == names_input_method(identifier),
{
    match identifier {
        Some(value) => contains_ascii_lowercased(value, "inputmethod"),
        None => false,
    }
}

/// Whether an input method composes text, as last observed.
#[derive(Clone, Copy, Debug, PartialEq, Eq, Structural)]
pub struct ImeState {
    active: bool,
}

impl ImeState {
    pub closed spec fn spec_active(self) -> bool {
        self.active
    }

    /// Unknown counts as active until the source was observed.
    pub fn new() -> (state: Self)
        ensures
            state.spec_active(),
    {
        ImeState { active: true }
    }

    /// Whether text has to be suppressed.
    pub fn active(&self) -> (active: bool)
        ensures
            active == self.spec_active(),
    {
        self.active
    }

    /// Takes in what the current source told of itself. A source that could not
    /// be read at all counts as active.
    pub fn refresh(
        &mut self,
        readable: bool,
        source_type: Option<InputSourceType>,
        input_source_id: &Option<String>,
        input_mode_id: &Option<String>,
    )
        ensures
            final(self).spec_active() == (readable ==> !(source_type matches Some(
                InputSourceType::KeyboardLayout,
            ))),
    {
        self.active = !readable || input_source_uses_ime(
            source_type,
            as_text(input_source_id),
            as_text(input_mode_id),
        );
    }
}

/// Text typed directly is trusted only with a source known to be a plain layout.
pub proof fn law_only_a_layout_is_trusted(
    source_type: Option<InputSourceType>,
    input_source_id: Option<&str>,
    input_mode_id: Option<&str>,
)
    ensures
        classified(source_type, input_source_id, input_mode_id) is KeyboardLayout <==> source_type
            == Some(InputSourceType::KeyboardLayout),
{
}

/// The type of an input source tells what it is, whatever it is called; without a type its names
/// tell only that it is an input method. Everything but a plain keyboard layout counts as one.
pub proof fn law_types_come_before_names(
    source_type: Option<InputSourceType>,
    input_source_id: Option<&str>,
    input_mode_id: Option<&str>,
    classification: ImeClassification,
    uses_ime: bool,
)
    requires
        call_ensures(
            classify_input_source,
            (source_type, input_source_id, input_mode_id),
            classification,
        ),
        call_ensures(
            input_source_uses_ime,
            (source_type, input_source_id, input_mode_id),
            uses_ime,
        ),
    ensures
        uses_ime <==> source_type != Some(InputSourceType::KeyboardLayout),
        classification is KeyboardLayout <==> source_type == Some(InputSourceType::KeyboardLayout),
        classification is KeyboardInputMode <==> source_type == Some(
            InputSourceType::KeyboardInputMode,
        ),
        classification is Other <==> source_type == Some(InputSourceType::Other),
        classification is InferredInputMethod ==> source_type is None && (input_source_id is Some
            || input_mode_id is Some),
        source_type is None && input_source_id is None && input_mode_id is None
            ==> classification is Unknown,
        source_type is None && (input_source_id matches Some(id) && text::contains(
            text::ascii_lowercased(id@),
            "inputmethod"@,
        )) ==> classification is InferredInputMethod,
        source_type is None && (input_mode_id matches Some(id) && text::contains(
            text::ascii_lowercased(id@),
            "inputmethod"@,
        )) ==> classification is InferredInputMethod,
{
}

/// An input method counts as active until a plain keyboard layout was read, and again whenever
/// none could be.
pub proof fn law_unreadable_sources_count_as_active(
    call: Subject<ImeState>,
    readable: bool,
    source_type: Option<InputSourceType>,
    input_source_id: Option<String>,
    input_mode_id: Option<String>,
)
    requires
        call_ensures(
            ImeState::refresh,
            (call.on, readable, source_type, &input_source_id, &input_mode_id),
            (),
        ),
    ensures
        final(call.on).spec_active() <==> !readable || source_type != Some(
            InputSourceType::KeyboardLayout,
        ),
{
}

} // verus!
