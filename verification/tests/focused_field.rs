//! How roles of the focused element are classified.

use zanei_macos::focused_field::{
    field_class, field_class_name, observed_field_class, FieldClass, FocusedField,
};
use zanei_macos::schema::FieldKind;

#[test]
fn classifies_known_text_roles_and_subroles() {
    let cases = [
        (
            Some("AXTextField"),
            Some("AXSearchField"),
            FieldKind::Search,
        ),
        (Some("AXTextField"), None, FieldKind::Text),
        (Some("AXTextArea"), None, FieldKind::Text),
        (Some("AXIncrementor"), None, FieldKind::Number),
        (Some("AXComboBox"), None, FieldKind::Other),
        (Some("AXDateField"), None, FieldKind::Other),
        (Some("AXTimeField"), None, FieldKind::Other),
    ];

    for (role, subrole, expected) in cases {
        assert_eq!(field_class(role, subrole), FieldClass::KnownText(expected));
    }
}

#[test]
fn classifies_secure_text_role_and_subrole() {
    assert_eq!(
        field_class(Some("AXSecureTextField"), None),
        FieldClass::SecureText
    );
    assert_eq!(
        field_class(Some("AXTextField"), Some("AXSecureTextField")),
        FieldClass::SecureText
    );
}

#[test]
fn secure_input_overrides_a_known_text_role() {
    assert_eq!(
        observed_field_class(Some("AXTextField"), None, true),
        FieldClass::SecureText
    );
}

#[test]
fn classifies_every_known_safe_non_text_role() {
    let roles = [
        "AXButton",
        "AXCheckBox",
        "AXRadioButton",
        "AXSlider",
        "AXPopUpButton",
        "AXMenuItem",
        "AXTab",
        "AXStaticText",
    ];

    for role in roles {
        assert_eq!(field_class(Some(role), None), FieldClass::KnownSafeNonText);
    }
}

#[test]
fn classifies_unknown_or_missing_roles_as_unknown() {
    assert_eq!(field_class(Some("AXDocument"), None), FieldClass::Unknown);
    assert_eq!(
        field_class(None, Some("AXSearchField")),
        FieldClass::Unknown
    );
    assert_eq!(field_class(None, None), FieldClass::Unknown);
}

#[test]
fn field_kind_is_exposed_only_for_known_text() {
    assert_eq!(
        FieldClass::KnownText(FieldKind::Search).field_kind(),
        Some(FieldKind::Search)
    );
    assert_eq!(FieldClass::SecureText.field_kind(), None);
    assert_eq!(FieldClass::KnownSafeNonText.field_kind(), None);
    assert_eq!(FieldClass::Unknown.field_kind(), None);
}

#[test]
fn focused_field_carries_the_kind_of_its_class() {
    let field = FocusedField { generation: 3, class: FieldClass::KnownText(FieldKind::Number) };
    assert_eq!(field.field_kind(), Some(FieldKind::Number));
    assert!(field.class.is_known_text());
    let safe = FocusedField { generation: 3, class: FieldClass::KnownSafeNonText };
    assert_eq!(safe.field_kind(), None);
}

#[test]
fn classes_have_names() {
    assert_eq!(field_class_name(FieldClass::SecureText), "secure_text");
    assert_eq!(field_class_name(FieldClass::KnownText(FieldKind::Text)), "text");
    assert_eq!(field_class_name(FieldClass::KnownText(FieldKind::Search)), "search");
    assert_eq!(field_class_name(FieldClass::KnownText(FieldKind::Url)), "url");
    assert_eq!(field_class_name(FieldClass::KnownText(FieldKind::Email)), "email");
    assert_eq!(field_class_name(FieldClass::KnownText(FieldKind::Number)), "number");
    assert_eq!(field_class_name(FieldClass::KnownText(FieldKind::Other)), "other_text");
    assert_eq!(field_class_name(FieldClass::KnownSafeNonText), "safe_non_text");
    assert_eq!(field_class_name(FieldClass::Unknown), "unknown");
}
