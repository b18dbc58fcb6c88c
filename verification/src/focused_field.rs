//! Focused element classification shared by the accessibility and event-tap sides.

use vstd::prelude::*;

use crate::schema::FieldKind;
use crate::text;
use crate::text::is_text;

verus! {

/// What kind of element holds the focus, as far as text is concerned.
#[derive(Clone, Copy, Debug, PartialEq, Eq, Structural)]
pub enum FieldClass {
    SecureText,
    KnownText(FieldKind),
    KnownSafeNonText,
    Unknown,
}

impl FieldClass {
    pub open spec fn known_text(self) -> bool {
        self is KnownText
    }

    pub open spec fn spec_field_kind(self) -> Option<FieldKind> {
        match self {
            FieldClass::KnownText(kind) => Some(kind),
            _ => None,
        }
    }

    /// A short name for diagnostics.
    pub open spec fn spec_name(self) -> Seq<char> {
        match self {
            FieldClass::SecureText => "secure_text"@,
            FieldClass::KnownText(FieldKind::Text) => "text"@,
            FieldClass::KnownText(FieldKind::Search) => "search"@,
            FieldClass::KnownText(FieldKind::Url) => "url"@,
            FieldClass::KnownText(FieldKind::Email) => "email"@,
            FieldClass::KnownText(FieldKind::Number) => "number"@,
            FieldClass::KnownText(FieldKind::Other) => "other_text"@,
            FieldClass::KnownSafeNonText => "safe_non_text"@,
            FieldClass::Unknown => "unknown"@,
        }
    }

    /// Whether the element is a text field that is safe to observe.
    #[must_use]
    pub fn is_known_text(self) -> (known: bool)
        ensures
            known == self.known_text(),
    {
        matches!(self, FieldClass::KnownText(_))
    }

    /// The kind of text, for a known text field only.
    #[must_use]
    pub fn field_kind(self) -> (kind: Option<FieldKind>)
        ensures
            kind == self.spec_field_kind(),
    {
        match self {
            FieldClass::KnownText(kind) => Some(kind),
            FieldClass::SecureText => None,
            FieldClass::KnownSafeNonText => None,
            FieldClass::Unknown => None,
        }
    }
}

/// The focused element of an application, with its focus generation.
#[derive(Clone, Copy, Debug, PartialEq, Eq, Structural)]
pub struct FocusedField {
    pub generation: u64,
    pub class: FieldClass,
}

impl FocusedField {
    /// The kind of text, for a known text field only.
    #[must_use]
    pub fn field_kind(self) -> (kind: Option<FieldKind>)
        ensures
            kind == self.class.spec_field_kind(),
    {
        self.class.field_kind()
    }
}

/// Whether an optional role holds exactly these characters.
pub open spec fn is_role(role: Option<Seq<char>>, name: Seq<char>) -> bool {
    role == Some(name)
}

/// Roles whose elements are safe to observe and hold no free text.
pub open spec fn safe_non_text_role(role: Option<Seq<char>>) -> bool {
    ||| is_role(role, "AXButton"@)
    ||| is_role(role, "AXCheckBox"@)
    ||| is_role(role, "AXRadioButton"@)
    ||| is_role(role, "AXSlider"@)
    ||| is_role(role, "AXPopUpButton"@)
    ||| is_role(role, "AXMenuItem"@)
    ||| is_role(role, "AXTab"@)
    ||| is_role(role, "AXStaticText"@)
}

/// The class of an element with this role and subrole.
pub open spec fn class_of(role: Option<Seq<char>>, subrole: Option<Seq<char>>) -> FieldClass {
    if is_role(role, "AXSecureTextField"@) || is_role(subrole, "AXSecureTextField"@) {
        FieldClass::SecureText
    } else if is_role(role, "AXTextField"@) && is_role(subrole, "AXSearchField"@) {
        FieldClass::KnownText(FieldKind::Search)
    } else if is_role(role, "AXTextField"@) || is_role(role, "AXTextArea"@) {
        FieldClass::KnownText(FieldKind::Text)
    } else if is_role(role, "AXIncrementor"@) {
        FieldClass::KnownText(FieldKind::Number)
    } else if is_role(role, "AXComboBox"@) || is_role(role, "AXDateField"@) || is_role(
        role,
        "AXTimeField"@,
    ) {
        FieldClass::KnownText(FieldKind::Other)
    } else if safe_non_text_role(role) {
        FieldClass::KnownSafeNonText
    } else {
        FieldClass::Unknown
    }
}

/// The class of an element as observed: secure input hides everything.
pub open spec fn observed_class_of(
    role: Option<Seq<char>>,
    subrole: Option<Seq<char>>,
    secure_input: bool,
) -> FieldClass {
    if secure_input {
        FieldClass::SecureText
    } else {
        class_of(role, subrole)
    }
}

/// Classifies an element by its accessibility role and subrole.
#[must_use]
pub fn field_class(role: Option<&str>, subrole: Option<&str>) -> (class: FieldClass)
    ensures
        class == class_of(text::str_view(role), text::str_view(subrole)),
{
    if is_text(role, "AXSecureTextField") || is_text(subrole, "AXSecureTextField") {
        FieldClass::SecureText
    } else if is_text(role, "AXTextField") && is_text(subrole, "AXSearchField") {
        FieldClass::KnownText(FieldKind::Search)
    } else if is_text(role, "AXTextField") || is_text(role, "AXTextArea") {
        FieldClass::KnownText(FieldKind::Text)
    } else if is_text(role, "AXIncrementor") {
        FieldClass::KnownText(FieldKind::Number)
    } else if is_text(role, "AXComboBox") || is_text(role, "AXDateField") || is_text(
        role,
        "AXTimeField",
    ) {
        FieldClass::KnownText(FieldKind::Other)
    } else if is_text(role, "AXButton") || is_text(role, "AXCheckBox") || is_text(
        role,
        "AXRadioButton",
    ) || is_text(role, "AXSlider") || is_text(role, "AXPopUpButton") || is_text(role, "AXMenuItem")
        || is_text(role, "AXTab") || is_text(role, "AXStaticText") {
        FieldClass::KnownSafeNonText
    } else {
        FieldClass::Unknown
    }
}

/// Classifies an element as observed: secure input hides everything.
#[must_use]
pub fn observed_field_class(
    role: Option<&str>,
    subrole: Option<&str>,
    secure_input: bool,
) -> (class: FieldClass)
    ensures
        class == observed_class_of(text::str_view(role), text::str_view(subrole), secure_input),
{
    if secure_input {
        FieldClass::SecureText
    } else {
        field_class(role, subrole)
    }
}

/// A short name of the class for diagnostics.
pub fn field_class_name(field_class: FieldClass) -> (name: &'static str)
    ensures
        name@ == field_class.spec_name(),
{
    match field_class {
        FieldClass::SecureText => "secure_text",
        FieldClass::KnownText(FieldKind::Text) => "text",
        FieldClass::KnownText(FieldKind::Search) => "search",
        FieldClass::KnownText(FieldKind::Url) => "url",
        FieldClass::KnownText(FieldKind::Email) => "email",
        FieldClass::KnownText(FieldKind::Number) => "number",
        FieldClass::KnownText(FieldKind::Other) => "other_text",
        FieldClass::KnownSafeNonText => "safe_non_text",
        FieldClass::Unknown => "unknown",
    }
}

/// Secure input and secure roles always win: neither is ever taken for text.
pub proof fn law_secure_fields_are_never_text(
    role: Option<Seq<char>>,
    subrole: Option<Seq<char>>,
)
    ensures
        observed_class_of(role, subrole, true) is SecureText,
        is_role(role, "AXSecureTextField"@) ==> class_of(role, subrole) is SecureText,
        is_role(subrole, "AXSecureTextField"@) ==> class_of(role, subrole) is SecureText,
        class_of(role, subrole).known_text() ==> !(is_role(subrole, "AXSecureTextField"@)),
        role is None && !is_role(subrole, "AXSecureTextField"@) ==> class_of(
            role,
            subrole,
        ) is Unknown,
{
}

/// A field is secure by its role or its subrole, before anything else; secure input makes every
/// field secure. Otherwise its role tells its class, and only a text field with the subrole of a
/// search field is one.
pub proof fn law_roles_tell_the_class(
    role: Option<&str>,
    subrole: Option<&str>,
    class: FieldClass,
    secure_input: bool,
    observed: FieldClass,
)
    requires
        call_ensures(field_class, (role, subrole), class),
        call_ensures(observed_field_class, (role, subrole, secure_input), observed),
    ensures
        class is SecureText <==> text::str_view(role) == Some("AXSecureTextField"@)
            || text::str_view(subrole) == Some("AXSecureTextField"@),
        observed == if secure_input {
            FieldClass::SecureText
        } else {
            class
        },
        class == FieldClass::KnownText(FieldKind::Search) <==> text::str_view(role) == Some(
            "AXTextField"@,
        ) && text::str_view(subrole) == Some("AXSearchField"@),
        class !is SecureText ==> {
            &&& class == FieldClass::KnownText(FieldKind::Text) <==> text::str_view(role) == Some(
                "AXTextArea"@,
            ) || (text::str_view(role) == Some("AXTextField"@) && text::str_view(subrole) != Some(
                "AXSearchField"@,
            ))
            &&& class == FieldClass::KnownText(FieldKind::Number) <==> text::str_view(role)
                == Some("AXIncrementor"@)
            &&& class == FieldClass::KnownText(FieldKind::Other) <==> text::str_view(role) == Some(
                "AXComboBox"@,
            ) || text::str_view(role) == Some("AXDateField"@) || text::str_view(role) == Some(
                "AXTimeField"@,
            )
            &&& class is KnownSafeNonText <==> text::str_view(role) == Some("AXButton"@)
                || text::str_view(role) == Some("AXCheckBox"@) || text::str_view(role) == Some(
                "AXRadioButton"@,
            ) || text::str_view(role) == Some("AXSlider"@) || text::str_view(role) == Some(
                "AXPopUpButton"@,
            ) || text::str_view(role) == Some("AXMenuItem"@) || text::str_view(role) == Some(
                "AXTab"@,
            ) || text::str_view(role) == Some("AXStaticText"@)
        },
        role is None && class !is SecureText ==> class is Unknown,
        class matches FieldClass::KnownText(kind) ==> kind !is Url && kind !is Email,
{
    reveal_strlit("AXSecureTextField");
    assert("AXSecureTextField"@.len() == 17 && "AXSecureTextField"@[2] == 'S' && "AXSecureTextField"@[3] == 'e');
    reveal_strlit("AXTextField");
    assert("AXTextField"@.len() == 11 && "AXTextField"@[2] == 'T' && "AXTextField"@[3] == 'e');
    reveal_strlit("AXSearchField");
    assert("AXSearchField"@.len() == 13 && "AXSearchField"@[2] == 'S' && "AXSearchField"@[3] == 'e');
    reveal_strlit("AXTextArea");
    assert("AXTextArea"@.len() == 10 && "AXTextArea"@[2] == 'T' && "AXTextArea"@[3] == 'e');
    reveal_strlit("AXIncrementor");
    assert("AXIncrementor"@.len() == 13 && "AXIncrementor"@[2] == 'I' && "AXIncrementor"@[3] == 'n');
    reveal_strlit("AXComboBox");
    assert("AXComboBox"@.len() == 10 && "AXComboBox"@[2] == 'C' && "AXComboBox"@[3] == 'o');
    reveal_strlit("AXDateField");
    assert("AXDateField"@.len() == 11 && "AXDateField"@[2] == 'D' && "AXDateField"@[3] == 'a');
    reveal_strlit("AXTimeField");
    assert("AXTimeField"@.len() == 11 && "AXTimeField"@[2] == 'T' && "AXTimeField"@[3] == 'i');
    reveal_strlit("AXButton");
    assert("AXButton"@.len() == 8 && "AXButton"@[2] == 'B' && "AXButton"@[3] == 'u');
    reveal_strlit("AXCheckBox");
    assert("AXCheckBox"@.len() == 10 && "AXCheckBox"@[2] == 'C' && "AXCheckBox"@[3] == 'h');
    reveal_strlit("AXRadioButton");
    assert("AXRadioButton"@.len() == 13 && "AXRadioButton"@[2] == 'R' && "AXRadioButton"@[3] == 'a');
    reveal_strlit("AXSlider");
    assert("AXSlider"@.len() == 8 && "AXSlider"@[2] == 'S' && "AXSlider"@[3] == 'l');
    reveal_strlit("AXPopUpButton");
    assert("AXPopUpButton"@.len() == 13 && "AXPopUpButton"@[2] == 'P' && "AXPopUpButton"@[3] == 'o');
    reveal_strlit("AXMenuItem");
    assert("AXMenuItem"@.len() == 10 && "AXMenuItem"@[2] == 'M' && "AXMenuItem"@[3] == 'e');
    reveal_strlit("AXTab");
    assert("AXTab"@.len() == 5 && "AXTab"@[2] == 'T' && "AXTab"@[3] == 'a');
    reveal_strlit("AXStaticText");
    assert("AXStaticText"@.len() == 12 && "AXStaticText"@[2] == 'S' && "AXStaticText"@[3] == 't');
}

/// Only known text has a kind, and it is the kind that it is known as.
pub proof fn law_only_text_has_a_kind(
    field: FocusedField,
    kind: Option<FieldKind>,
    class_kind: Option<FieldKind>,
    known: bool,
)
    requires
        call_ensures(FocusedField::field_kind, (field,), kind),
        call_ensures(FieldClass::field_kind, (field.class,), class_kind),
        call_ensures(FieldClass::is_known_text, (field.class,), known),
    ensures
        known <==> field.class is KnownText,
        kind is Some <==> field.class is KnownText,
        kind == class_kind,
        kind matches Some(kind) ==> field.class == FieldClass::KnownText(kind),
{
}

} // verus!
