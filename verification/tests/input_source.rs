//! Which input sources compose text.

use zanei_macos::input_source::{
    classify_input_source, input_source_uses_ime, ImeClassification, ImeState, InputSourceType,
};

#[test]
fn keyboard_input_mode_is_ime_without_inputmethod_identifier() {
    assert!(input_source_uses_ime(
        Some(InputSourceType::KeyboardInputMode),
        Some("com.third-party.custom-ime"),
        None,
    ));
}

#[test]
fn keyboard_layout_is_not_ime() {
    assert!(!input_source_uses_ime(
        Some(InputSourceType::KeyboardLayout),
        Some("com.apple.keylayout.ABC"),
        None,
    ));
}

#[test]
fn source_type_takes_precedence_over_inputmethod_identifier() {
    assert!(!input_source_uses_ime(
        Some(InputSourceType::KeyboardLayout),
        Some("com.example.inputmethod.named-layout"),
        None,
    ));
}

#[test]
fn other_input_source_type_fails_closed() {
    assert!(input_source_uses_ime(
        Some(InputSourceType::Other),
        Some("com.example.keyboard"),
        None,
    ));
}

#[test]
fn input_source_type_property_failure_fails_closed() {
    assert_eq!(
        classify_input_source(None, Some("com.apple.keylayout.ABC"), None),
        ImeClassification::Unknown,
    );
    assert!(input_source_uses_ime(
        None,
        Some("com.apple.keylayout.ABC"),
        None,
    ));
}

#[test]
fn missing_type_uses_inputmethod_identifier_as_ime_hint() {
    assert_eq!(
        classify_input_source(None, Some("com.apple.InputMethod.Custom"), None),
        ImeClassification::InferredInputMethod,
    );
    assert!(input_source_uses_ime(
        None,
        Some("com.apple.InputMethod.Custom"),
        None,
    ));
}

#[test]
fn mode_identifier_hints_at_an_input_method() {
    assert_eq!(
        classify_input_source(
            None,
            Some("com.apple.keylayout.ABC"),
            Some("com.apple.inputmethod.Roman")
        ),
        ImeClassification::InferredInputMethod
    );
}

#[test]
fn state_starts_active_and_follows_the_source() {
    let mut state = ImeState::new();
    assert!(state.active());
    let layout = Some("com.apple.keylayout.ABC".to_owned());
    state.refresh(true, Some(InputSourceType::KeyboardLayout), &layout, &None);
    assert!(!state.active());
    state.refresh(false, Some(InputSourceType::KeyboardLayout), &layout, &None);
    assert!(state.active());
}
