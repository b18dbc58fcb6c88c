//! The store encryption key, kept as an item in the login Keychain.
//!
//! One item per user holds the key as hexadecimal text. Its access list is bound
//! to the code signature of the application that made it.

use vstd::prelude::*;

use crate::text;
use crate::text::format_decimal;

verus! {

/// The service of the store key item.
pub const STORE_KEY_SERVICE: &'static str = "dev.zanei.store";

/// The account of the store key item.
pub const STORE_KEY_ACCOUNT: &'static str = "key";

pub const STORE_KEY_LABEL: &'static str = "Zanei store key";

pub const STORE_KEY_DESCRIPTION: &'static str = "Encryption key for the local Zanei store";

pub const LOCKED_ADVICE: &'static str =
    "your login Keychain is locked; unlock it (for example by opening Keychain Access) and try again";

pub const DENIED_ADVICE: &'static str =
    "macOS denied this process access to the store key in your login Keychain; allow Zanei in the Keychain dialog or use the signed Zanei.app build";

pub const ERR_SEC_SUCCESS: i32 = 0;

pub const ERR_SEC_USER_CANCELED: i32 = -128;

pub const ERR_SEC_AUTH_FAILED: i32 = -25_293;

pub const ERR_SEC_DUPLICATE_ITEM: i32 = -25_299;

pub const ERR_SEC_ITEM_NOT_FOUND: i32 = -25_300;

pub const ERR_SEC_INTERACTION_NOT_ALLOWED: i32 = -25_308;

/// Why a Keychain call failed.
#[derive(Clone, Copy, Debug, PartialEq, Eq, Structural)]
pub enum KeychainFailure {
    /// The request could not be built.
    Allocation,
    Status(i32),
}

/// Why the store key could not be read, written or deleted.
#[derive(Debug, PartialEq, Eq)]
pub enum KeyStoreError {
    AlreadyExists,
    Locked { advice: String },
    Denied { advice: String },
    InvalidItem(String),
    Unavailable(String),
}

/// Whether the Keychain may ask its user.
#[derive(Clone, Copy, Debug, PartialEq, Eq, Structural)]
pub enum KeyStoreInteraction {
    Prompt,
    NoPrompt,
}

/// Whether dialogs have to be suppressed for a call.
pub fn suppresses_dialogs(interaction: KeyStoreInteraction) -> (suppressed: bool)
    ensures
        suppressed == (interaction == KeyStoreInteraction::NoPrompt),
{
    matches!(interaction, KeyStoreInteraction::NoPrompt)
}

/// What came of looking for an item: a missing one is none, and an item without
/// readable data is empty.
pub fn found_password(status: i32, data: Option<Vec<u8>>) -> (found: Result<
    Option<Vec<u8>>,
    KeychainFailure,
>)
    ensures
        status == ERR_SEC_SUCCESS ==> (found matches Ok(Some(bytes)) && bytes@ == match data {
            Some(data) => data@,
            None => Seq::empty(),
        }),
        status == ERR_SEC_ITEM_NOT_FOUND ==> found == Ok::<Option<Vec<u8>>, KeychainFailure>(None),
        status != ERR_SEC_SUCCESS && status != ERR_SEC_ITEM_NOT_FOUND ==> found == Err::<
            Option<Vec<u8>>,
            KeychainFailure,
        >(KeychainFailure::Status(status)),
{
    if status == ERR_SEC_SUCCESS {
        match data {
            Some(data) => Ok(Some(data)),
            None => Ok(Some(Vec::new())),
        }
    } else if status == ERR_SEC_ITEM_NOT_FOUND {
        Ok(None)
    } else {
        Err(KeychainFailure::Status(status))
    }
}

/// What came of adding an item.
pub fn added_password(status: i32) -> (added: Result<(), KeychainFailure>)
    ensures
        added == if status == ERR_SEC_SUCCESS {
            Ok::<(), KeychainFailure>(())
        } else {
            Err(KeychainFailure::Status(status))
        },
{
    if status == ERR_SEC_SUCCESS {
        Ok(())
    } else {
        Err(KeychainFailure::Status(status))
    }
}

/// What came of deleting an item: whether there was one.
pub fn deleted_password(status: i32) -> (deleted: Result<bool, KeychainFailure>)
    ensures
        deleted == if status == ERR_SEC_SUCCESS {
            Ok::<bool, KeychainFailure>(true)
        } else if status == ERR_SEC_ITEM_NOT_FOUND {
            Ok(false)
        } else {
            Err(KeychainFailure::Status(status))
        },
{
    if status == ERR_SEC_SUCCESS {
        Ok(true)
    } else if status == ERR_SEC_ITEM_NOT_FOUND {
        Ok(false)
    } else {
        Err(KeychainFailure::Status(status))
    }
}

/// Whether `error` reports a failed Keychain call. One status stands both for a
/// locked Keychain and for a dialog that could not be shown; the lock state tells
/// them apart.
pub open spec fn classified(
    failure: KeychainFailure,
    operation: Seq<char>,
    unlocked: Option<bool>,
    error: KeyStoreError,
) -> bool {
    match failure {
        KeychainFailure::Allocation => error matches KeyStoreError::Unavailable(reason) && reason@
            == "failed to build a Keychain request"@,
        KeychainFailure::Status(status) => if status == ERR_SEC_DUPLICATE_ITEM {
            error is AlreadyExists
        } else if status == ERR_SEC_INTERACTION_NOT_ALLOWED && unlocked == Some(false) {
            error matches KeyStoreError::Locked { advice } && advice@ == LOCKED_ADVICE@
        } else if status == ERR_SEC_INTERACTION_NOT_ALLOWED || status == ERR_SEC_AUTH_FAILED
            || status == ERR_SEC_USER_CANCELED {
            error matches KeyStoreError::Denied { advice } && advice@ == DENIED_ADVICE@
        } else {
            error matches KeyStoreError::Unavailable(reason) && reason@ == "Keychain "@ + operation
                + " failed with OSStatus "@ + text::decimal(status as int)
        },
    }
}

/// Whether the lock state was asked for, where a failed call needs it.
pub open spec fn lock_asked<U: FnOnce() -> Option<bool>>(
    failure: KeychainFailure,
    read_unlocked: U,
    unlocked: Option<bool>,
) -> bool {
    failure == KeychainFailure::Status(ERR_SEC_INTERACTION_NOT_ALLOWED) ==> call_ensures(
        read_unlocked,
        (),
        unlocked,
    )
}

/// Whether `error` reports a failed Keychain call, by what the lock state is where
/// it has to be asked for.
pub open spec fn reported<U: FnOnce() -> Option<bool>>(
    failure: KeychainFailure,
    operation: Seq<char>,
    read_unlocked: U,
    error: KeyStoreError,
) -> bool {
    exists|unlocked: Option<bool>|
        {
            &&& lock_asked(failure, read_unlocked, unlocked)
            &&& #[trigger] classified(failure, operation, unlocked, error)
        }
}

/// Reports a failed Keychain call. The lock state is asked for only where the
/// status leaves it open.
pub fn classify<U: FnOnce() -> Option<bool>>(
    failure: KeychainFailure,
    operation: &str,
    read_unlocked: U,
) -> (error: KeyStoreError)
    requires
        failure == KeychainFailure::Status(ERR_SEC_INTERACTION_NOT_ALLOWED) ==> call_requires(
            read_unlocked,
            (),
        ),
    ensures
        reported(failure, operation@, read_unlocked, error),
{
    let unlocked = match failure {
        KeychainFailure::Status(status) => if status == ERR_SEC_INTERACTION_NOT_ALLOWED {
            read_unlocked()
        } else {
            None
        },
        KeychainFailure::Allocation => None,
    };
    let error = classify_as(failure, operation, unlocked);
    assert(classified(failure, operation@, unlocked, error));
    error
}

fn classify_as(failure: KeychainFailure, operation: &str, unlocked: Option<bool>) -> (error:
    KeyStoreError)
    ensures
        classified(failure, operation@, unlocked, error),
{
    match failure {
        KeychainFailure::Allocation => {
            KeyStoreError::Unavailable("failed to build a Keychain request".to_owned())
        },
        KeychainFailure::Status(status) => {
            if status == ERR_SEC_DUPLICATE_ITEM {
                KeyStoreError::AlreadyExists
            } else if status == ERR_SEC_INTERACTION_NOT_ALLOWED {
                if matches!(unlocked, Some(false)) {
                    KeyStoreError::Locked { advice: LOCKED_ADVICE.to_owned() }
                } else {
                    KeyStoreError::Denied { advice: DENIED_ADVICE.to_owned() }
                }
            } else if status == ERR_SEC_AUTH_FAILED || status == ERR_SEC_USER_CANCELED {
                KeyStoreError::Denied { advice: DENIED_ADVICE.to_owned() }
            } else {
                let mut reason = "Keychain ".to_owned();
                reason.append(operation);
                reason.append(" failed with OSStatus ");
                let number = format_decimal(status as i64);
                reason.append(number.as_str());
                KeyStoreError::Unavailable(reason)
            }
        },
    }
}

/// The store key item in the login Keychain. Its service can be chosen, so that
/// tests need not touch the real item.
#[derive(Debug)]
pub struct KeychainStoreKey {
    service: String,
}

impl Clone for KeychainStoreKey {
    fn clone(&self) -> (copy: KeychainStoreKey)
        ensures
            copy == *self,
    {
        KeychainStoreKey { service: self.service.clone() }
    }
}

impl Default for KeychainStoreKey {
    fn default() -> (key: KeychainStoreKey)
        ensures
            key.spec_service() == STORE_KEY_SERVICE@,
    {
        KeychainStoreKey::with_service(STORE_KEY_SERVICE)
    }
}

impl KeychainStoreKey {
    pub closed spec fn spec_service(self) -> Seq<char> {
        self.service@
    }

    /// The item of a service.
    #[must_use]
    pub fn with_service(service: &str) -> (key: Self)
        ensures
            key.spec_service() == service@,
    {
        KeychainStoreKey { service: service.to_owned() }
    }

    /// The service of the item.
    pub fn service(&self) -> (service: &str)
        ensures
            service@ == self.spec_service(),
    {
        self.service.as_str()
    }

    /// Where the key is kept, for messages.
    pub fn location(&self) -> (location: String)
        ensures
            location@ == "the login Keychain (item \""@ + STORE_KEY_LABEL@ + "\")"@,
    {
        let mut location = "the login Keychain (item \"".to_owned();
        location.append(STORE_KEY_LABEL);
        location.append("\")");
        location
    }

    /// Reads the key out of what was found: the item has to be text, and the text
    /// has to be a key.
    pub fn load<K, U: FnOnce() -> Option<bool>, D: FnOnce(String) -> Result<K, String>>(
        &self,
        found: Result<Option<Vec<u8>>, KeychainFailure>,
        read_unlocked: U,
        decode: D,
    ) -> (loaded: Result<Option<K>, KeyStoreError>)
        requires
            found == Err::<Option<Vec<u8>>, KeychainFailure>(
                KeychainFailure::Status(ERR_SEC_INTERACTION_NOT_ALLOWED),
            ) ==> call_requires(read_unlocked, ()),
            found matches Ok(Some(bytes)) ==> forall|text: String|
                vstd::utf8::valid_utf8(bytes@) && text@ == vstd::utf8::decode_utf8(bytes@)
                    ==> #[trigger] call_requires(decode, (text,)),
        ensures
            match found {
                Err(failure) => loaded matches Err(error) && reported(
                    failure,
                    "read"@,
                    read_unlocked,
                    error,
                ),
                Ok(None) => loaded == Ok::<Option<K>, KeyStoreError>(None),
                Ok(Some(bytes)) => if vstd::utf8::valid_utf8(bytes@) {
                    exists|text: String, decoded: Result<K, String>|
                        {
                            &&& text@ == vstd::utf8::decode_utf8(bytes@)
                            &&& #[trigger] call_ensures(decode, (text,), decoded)
                            &&& loaded == match decoded {
                                Ok(key) => Ok::<Option<K>, KeyStoreError>(Some(key)),
                                Err(reason) => Err(KeyStoreError::InvalidItem(reason)),
                            }
                        }
                } else {
                    loaded matches Err(KeyStoreError::InvalidItem(reason)) && reason@
                        == "not UTF-8 text"@
                },
            },
    {
        match found {
            Err(failure) => Err(classify(failure, "read", read_unlocked)),
            Ok(None) => Ok(None),
            Ok(Some(bytes)) => match utf8_text(bytes) {
                None => Err(KeyStoreError::InvalidItem("not UTF-8 text".to_owned())),
                Some(text) => match decode(text) {
                    Ok(key) => Ok(Some(key)),
                    Err(reason) => Err(KeyStoreError::InvalidItem(reason)),
                },
            },
        }
    }

    /// What came of writing the key.
    pub fn store<U: FnOnce() -> Option<bool>>(
        &self,
        added: Result<(), KeychainFailure>,
        read_unlocked: U,
    ) -> (stored: Result<(), KeyStoreError>)
        requires
            added == Err::<(), KeychainFailure>(
                KeychainFailure::Status(ERR_SEC_INTERACTION_NOT_ALLOWED),
            ) ==> call_requires(read_unlocked, ()),
        ensures
            match added {
                Ok(()) => stored is Ok,
                Err(failure) => stored matches Err(error) && reported(
                    failure,
                    "write"@,
                    read_unlocked,
                    error,
                ),
            },
    {
        match added {
            Ok(()) => Ok(()),
            Err(failure) => Err(classify(failure, "write", read_unlocked)),
        }
    }

    /// What came of deleting the key: whether there was one.
    pub fn delete<U: FnOnce() -> Option<bool>>(
        &self,
        deleted: Result<bool, KeychainFailure>,
        read_unlocked: U,
    ) -> (result: Result<bool, KeyStoreError>)
        requires
            deleted == Err::<bool, KeychainFailure>(
                KeychainFailure::Status(ERR_SEC_INTERACTION_NOT_ALLOWED),
            ) ==> call_requires(read_unlocked, ()),
        ensures
            match deleted {
                Ok(existed) => result == Ok::<bool, KeyStoreError>(existed),
                Err(failure) => result matches Err(error) && reported(
                    failure,
                    "delete"@,
                    read_unlocked,
                    error,
                ),
            },
    {
        match deleted {
            Ok(existed) => Ok(existed),
            Err(failure) => Err(classify(failure, "delete", read_unlocked)),
        }
    }
}

/// The text that bytes hold, if they are UTF-8.
///
/// Calls `String::from_utf8`, and trusts that it takes exactly the well-formed
/// UTF-8 byte sequences, and gives the characters that they encode.
#[verifier::external_body]
fn utf8_text(bytes: Vec<u8>) -> (text: Option<String>)
    ensures
        text is Some <==> vstd::utf8::valid_utf8(bytes@),
        text matches Some(text) ==> text@ == vstd::utf8::decode_utf8(bytes@),
{
    String::from_utf8(bytes).ok()
}

/// Only a Keychain known to be locked is reported as locked.
pub proof fn law_locked_needs_a_locked_keychain(
    failure: KeychainFailure,
    operation: Seq<char>,
    unlocked: Option<bool>,
    error: KeyStoreError,
)
    requires
        classified(failure, operation, unlocked, error),
        error is Locked,
    ensures
        unlocked == Some(false),
        failure == KeychainFailure::Status(ERR_SEC_INTERACTION_NOT_ALLOWED),
{
}

/// A key that is found is handed on, a missing one is none, and any other number is a failure with
/// that number. Adding succeeds at zero alone; deleting tells whether there was something to delete.
pub proof fn law_keychain_numbers_are_told_apart(
    status: i32,
    data: Option<Vec<u8>>,
    found: Result<Option<Vec<u8>>, KeychainFailure>,
    added: Result<(), KeychainFailure>,
    deleted: Result<bool, KeychainFailure>,
)
    requires
        call_ensures(found_password, (status, data), found),
        call_ensures(added_password, (status,), added),
        call_ensures(deleted_password, (status,), deleted),
    ensures
        (found matches Ok(Some(_))) <==> status == 0,
        found matches Ok(Some(bytes)) ==> (data matches Some(read) ==> bytes@ == read@) && (data
            is None ==> bytes@.len() == 0),
        found == Ok::<Option<Vec<u8>>, KeychainFailure>(None) <==> status == -25_300,
        found is Err ==> found == Err::<Option<Vec<u8>>, KeychainFailure>(
            KeychainFailure::Status(status),
        ),
        added is Ok <==> status == 0,
        added is Err ==> added == Err::<(), KeychainFailure>(KeychainFailure::Status(status)),
        deleted == Ok::<bool, KeychainFailure>(true) <==> status == 0,
        deleted == Ok::<bool, KeychainFailure>(false) <==> status == -25_300,
        deleted is Err ==> deleted == Err::<bool, KeychainFailure>(KeychainFailure::Status(status)),
{
}

/// A key that exists already is reported as such. Where no interaction is allowed, a keychain that is
/// known to be locked is reported as locked, any other as denied; a failed login and a dialog that was
/// cancelled are denied. All else is unavailable.
pub proof fn law_keychain_failures_are_told_apart<U: FnOnce() -> Option<bool>>(
    failure: KeychainFailure,
    operation: &str,
    read_unlocked: U,
    error: KeyStoreError,
)
    requires
        call_ensures(classify::<U>, (failure, operation, read_unlocked), error),
    ensures
        error is AlreadyExists <==> failure == KeychainFailure::Status((-25_299) as i32),
        error is Locked ==> failure == KeychainFailure::Status((-25_308) as i32) && call_ensures(
            read_unlocked,
            (),
            Some(false),
        ),
        error is Denied ==> failure == KeychainFailure::Status((-25_308) as i32) || failure
            == KeychainFailure::Status((-25_293) as i32) || failure == KeychainFailure::Status((-128) as i32),
        failure == KeychainFailure::Status((-25_293) as i32) || failure == KeychainFailure::Status((-128) as i32)
            ==> error is Denied,
        failure == KeychainFailure::Status((-25_308) as i32) ==> error is Locked || error is Denied,
        error is Unavailable <==> failure != KeychainFailure::Status((-25_299) as i32) && failure
            != KeychainFailure::Status((-25_308) as i32) && failure != KeychainFailure::Status((-25_293) as i32)
            && failure != KeychainFailure::Status((-128) as i32),
        error !is InvalidItem,
{
}

/// Dialogs are suppressed exactly where no prompt is wanted.
pub proof fn law_prompts_are_suppressed_on_request(
    interaction: KeyStoreInteraction,
    suppressed: bool,
)
    requires
        call_ensures(suppresses_dialogs, (interaction,), suppressed),
    ensures
        suppressed <==> interaction is NoPrompt,
{
}

/// Loading gives the key that its text decodes to, or none where there is none. A key that is no text,
/// or that does not decode, is invalid; a failed call is reported as its failure.
pub proof fn law_loaded_keys_are_decoded<
    K,
    U: FnOnce() -> Option<bool>,
    D: FnOnce(String) -> Result<K, String>,
>(
    key: KeychainStoreKey,
    found: Result<Option<Vec<u8>>, KeychainFailure>,
    read_unlocked: U,
    decode: D,
    loaded: Result<Option<K>, KeyStoreError>,
)
    requires
        call_ensures(
            KeychainStoreKey::load::<K, U, D>,
            (&key, found, read_unlocked, decode),
            loaded,
        ),
    ensures
        found == Ok::<Option<Vec<u8>>, KeychainFailure>(None) <==> (loaded matches Ok(None)),
        (loaded matches Ok(Some(value)) ==> (found matches Ok(Some(bytes)) && vstd::utf8::valid_utf8(
            bytes@,
        ) && exists|text: String| #[trigger]
            call_ensures(decode, (text,), Ok::<K, String>(value)) && text@
                == vstd::utf8::decode_utf8(bytes@))),
        (found matches Ok(Some(bytes)) && !vstd::utf8::valid_utf8(bytes@)) ==> (loaded matches Err(
            error,
        ) && error is InvalidItem),
        found is Err ==> loaded is Err && loaded->Err_0 !is InvalidItem,
{
    if let Ok(Some(value)) = loaded {
        let bytes = found->Ok_0->0;
        let (text, decoded) = choose|text: String, decoded: Result<K, String>|
            {
                &&& text@ == vstd::utf8::decode_utf8(bytes@)
                &&& #[trigger] call_ensures(decode, (text,), decoded)
                &&& loaded == match decoded {
                    Ok(key) => Ok::<Option<K>, KeyStoreError>(Some(key)),
                    Err(reason) => Err(KeyStoreError::InvalidItem(reason)),
                }
            };
        assert(decoded == Ok::<K, String>(value));
    }
}

/// Storing and deleting succeed exactly where the call did, and deleting tells what the call told.
pub proof fn law_stored_and_deleted_keys_are_reported<U: FnOnce() -> Option<bool>>(
    key: KeychainStoreKey,
    added: Result<(), KeychainFailure>,
    deleted: Result<bool, KeychainFailure>,
    read_unlocked: U,
    stored: Result<(), KeyStoreError>,
    result: Result<bool, KeyStoreError>,
)
    requires
        call_ensures(KeychainStoreKey::store::<U>, (&key, added, read_unlocked), stored),
        call_ensures(KeychainStoreKey::delete::<U>, (&key, deleted, read_unlocked), result),
    ensures
        stored is Ok <==> added is Ok,
        result is Ok <==> deleted is Ok,
        result matches Ok(existed) ==> deleted == Ok::<bool, KeychainFailure>(existed),
        added == Err::<(), KeychainFailure>(KeychainFailure::Status((-25_299) as i32)) ==> (stored matches Err(
            error,
        ) && error is AlreadyExists),
{
}

} // verus!
