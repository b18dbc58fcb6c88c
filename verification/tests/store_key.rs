//! The store key in the login Keychain.

use zanei_macos::store_key::{
    added_password, classify, deleted_password, found_password, suppresses_dialogs,
    KeyStoreError, KeyStoreInteraction, KeychainFailure, KeychainStoreKey, DENIED_ADVICE,
    ERR_SEC_AUTH_FAILED, ERR_SEC_DUPLICATE_ITEM, ERR_SEC_INTERACTION_NOT_ALLOWED,
    ERR_SEC_ITEM_NOT_FOUND, ERR_SEC_SUCCESS, ERR_SEC_USER_CANCELED, LOCKED_ADVICE,
};

fn failed(status: i32) -> KeychainFailure {
    KeychainFailure::Status(status)
}

fn unasked() -> Option<bool> {
    panic!("the lock state is not asked for")
}

#[test]
fn items_are_found_missing_or_refused() {
    assert_eq!(found_password(ERR_SEC_SUCCESS, Some(vec![1, 2])), Ok(Some(vec![1, 2])));
    assert_eq!(found_password(ERR_SEC_ITEM_NOT_FOUND, None), Ok(None));
    assert_eq!(
        found_password(ERR_SEC_AUTH_FAILED, None),
        Err(failed(ERR_SEC_AUTH_FAILED))
    );
    assert_eq!(added_password(ERR_SEC_SUCCESS), Ok(()));
    assert_eq!(
        added_password(ERR_SEC_DUPLICATE_ITEM),
        Err(failed(ERR_SEC_DUPLICATE_ITEM))
    );
    assert_eq!(deleted_password(ERR_SEC_SUCCESS), Ok(true));
    assert_eq!(deleted_password(ERR_SEC_ITEM_NOT_FOUND), Ok(false));
    assert_eq!(deleted_password(-50), Err(failed(-50)));
}

#[test]
fn failures_are_classified() {
    assert_eq!(
        classify(failed(ERR_SEC_DUPLICATE_ITEM), "write", unasked),
        KeyStoreError::AlreadyExists
    );
    let refused = failed(ERR_SEC_INTERACTION_NOT_ALLOWED);
    let denied = KeyStoreError::Denied { advice: DENIED_ADVICE.to_owned() };
    assert_eq!(
        classify(refused, "read", || Some(false)),
        KeyStoreError::Locked { advice: LOCKED_ADVICE.to_owned() }
    );
    assert_eq!(classify(refused, "read", || Some(true)), denied);
    assert_eq!(classify(refused, "read", || None), denied);
    assert_eq!(classify(failed(ERR_SEC_AUTH_FAILED), "read", unasked), denied);
    assert_eq!(classify(failed(ERR_SEC_USER_CANCELED), "read", unasked), denied);
    assert_eq!(
        classify(failed(-50), "delete", unasked),
        KeyStoreError::Unavailable("Keychain delete failed with OSStatus -50".to_owned())
    );
    assert_eq!(
        classify(KeychainFailure::Allocation, "read", unasked),
        KeyStoreError::Unavailable("failed to build a Keychain request".to_owned())
    );
}

#[test]
fn stored_text_has_to_be_a_key() {
    let key = KeychainStoreKey::with_service("dev.zanei.test");
    assert_eq!(key.service(), "dev.zanei.test");
    let decode = |text: String| text.parse::<u8>().map_err(|_| "no number".to_owned());
    assert_eq!(key.load(Ok(None), unasked, decode), Ok(None));
    assert_eq!(key.load(Ok(Some(b"7".to_vec())), unasked, decode), Ok(Some(7)));
    assert_eq!(
        key.load(Ok(Some(b"x".to_vec())), unasked, decode),
        Err(KeyStoreError::InvalidItem("no number".to_owned()))
    );
    for bytes in [&[0xff][..], &[0xc3], &[0xed, 0xa0, 0x80], &[0x37, 0x80], &[0xc0, 0xb7]] {
        assert_eq!(
            key.load(Ok(Some(bytes.to_vec())), unasked, decode),
            Err(KeyStoreError::InvalidItem("not UTF-8 text".to_owned()))
        );
    }
    let text = "k\u{e9}\u{20ac}\u{1f511}";
    let seen = key.load(Ok(Some(text.as_bytes().to_vec())), unasked, Ok::<String, String>);
    assert_eq!(seen, Ok(Some(text.to_owned())));
    assert_eq!(key.load(Ok(Some(vec![])), unasked, Ok::<String, String>), Ok(Some(String::new())));
    assert_eq!(
        key.load(Err(failed(-50)), unasked, decode),
        Err(KeyStoreError::Unavailable("Keychain read failed with OSStatus -50".to_owned()))
    );
}

#[test]
fn writing_and_deleting_report_their_operation() {
    let key = KeychainStoreKey::default();
    assert_eq!(key.service(), "dev.zanei.store");
    assert_eq!(key.location(), "the login Keychain (item \"Zanei store key\")");
    assert_eq!(key.store(Ok(()), unasked), Ok(()));
    assert_eq!(
        key.store(Err(failed(-50)), unasked),
        Err(KeyStoreError::Unavailable("Keychain write failed with OSStatus -50".to_owned()))
    );
    assert_eq!(key.delete(Ok(true), unasked), Ok(true));
    assert_eq!(key.delete(Ok(false), unasked), Ok(false));
    assert_eq!(
        key.delete(Err(failed(-50)), unasked),
        Err(KeyStoreError::Unavailable("Keychain delete failed with OSStatus -50".to_owned()))
    );
}

#[test]
fn dialogs_are_suppressed_without_a_prompt() {
    assert!(suppresses_dialogs(KeyStoreInteraction::NoPrompt));
    assert!(!suppresses_dialogs(KeyStoreInteraction::Prompt));
}
