//! Installed applications and their metadata.

use vstd::prelude::*;


verus! {

/// What an application's property list says of it.
#[derive(Debug, PartialEq, Eq)]
pub struct BundleMetadata {
    pub bundle_id: Option<String>,
    pub display_name: Option<String>,
    pub bundle_name: Option<String>,
}

/// Why an application could not be looked up.
#[derive(Debug, PartialEq, Eq)]
pub struct NativeAppDirectoryError {
    reason: String,
}

/// No application has the bundle identifier.
pub const APPLICATION_NOT_FOUND_ERROR_CODE: i64 = -10_814;

impl NativeAppDirectoryError {
    pub closed spec fn spec_message(self) -> Seq<char> {
        self.reason@
    }

    /// An error with this reason.
    pub fn new(reason: &str) -> (error: Self)
        ensures
            error.spec_message() == reason@,
    {
        NativeAppDirectoryError { reason: reason.to_owned() }
    }

    /// What went wrong.
    pub fn message(&self) -> (message: &str)
        ensures
            message@ == self.spec_message(),
    {
        self.reason.as_str()
    }
}

/// The reason that the native side gave, or a general one.
fn described(reason: Option<String>, general: &str) -> (error: NativeAppDirectoryError)
    ensures
        error.spec_message() == match reason {
            Some(reason) => reason@,
            None => general@,
        },
{
    match reason {
        Some(reason) => NativeAppDirectoryError { reason },
        None => NativeAppDirectoryError::new(general),
    }
}

/// An entry of a property list.
#[derive(Debug, PartialEq, Eq)]
pub enum PropertyValue {
    Missing,
    Text(String),
    Other,
}

/// Whether `result` is the text of an entry: a missing entry is none, and one of
/// another type is an error.
pub open spec fn entry_text(
    key: Seq<char>,
    value: PropertyValue,
    result: Result<Option<String>, NativeAppDirectoryError>,
) -> bool {
    match value {
        PropertyValue::Missing => result == Ok::<Option<String>, NativeAppDirectoryError>(None),
        PropertyValue::Text(text) => result == Ok::<Option<String>, NativeAppDirectoryError>(
            Some(text),
        ),
        PropertyValue::Other => result matches Err(error) && error.spec_message() == key
            + " is not a string"@,
    }
}

/// The text of an entry.
pub fn dictionary_string(key: &str, value: PropertyValue) -> (result: Result<
    Option<String>,
    NativeAppDirectoryError,
>)
    ensures
        entry_text(key@, value, result),
{
    match value {
        PropertyValue::Missing => Ok(None),
        PropertyValue::Text(text) => Ok(Some(text)),
        PropertyValue::Other => {
            let mut reason = key.to_owned();
            reason.append(" is not a string");
            Err(NativeAppDirectoryError { reason })
        },
    }
}

/// What reading a property list gave.
#[derive(Debug, PartialEq, Eq)]
pub enum PropertyList {
    /// It could not be read; the native side may say why.
    Unreadable(Option<String>),
    /// Its root is no dictionary.
    NotADictionary,
    /// The entries that name an application.
    Entries { bundle_id: PropertyValue, display_name: PropertyValue, bundle_name: PropertyValue },
}

/// The metadata in a property list. The first entry of a wrong type is the error.
pub fn parse_info_plist(list: PropertyList) -> (metadata: Result<
    BundleMetadata,
    NativeAppDirectoryError,
>)
    ensures
        match list {
            PropertyList::Unreadable(reason) => metadata matches Err(error)
                && error.spec_message() == match reason {
                Some(reason) => reason@,
                None => "failed to parse property list"@,
            },
            PropertyList::NotADictionary => metadata matches Err(error) && error.spec_message()
                == "Info.plist root is not a dictionary"@,
            PropertyList::Entries { bundle_id, display_name, bundle_name } => match metadata {
                Ok(found) => {
                    &&& entry_text("CFBundleIdentifier"@, bundle_id, Ok(found.bundle_id))
                    &&& entry_text("CFBundleDisplayName"@, display_name, Ok(found.display_name))
                    &&& entry_text("CFBundleName"@, bundle_name, Ok(found.bundle_name))
                },
                Err(error) => if bundle_id is Other {
                    entry_text("CFBundleIdentifier"@, bundle_id, Err(error))
                } else if display_name is Other {
                    entry_text("CFBundleDisplayName"@, display_name, Err(error))
                } else {
                    entry_text("CFBundleName"@, bundle_name, Err(error))
                },
            },
        },
{
    match list {
        PropertyList::Unreadable(reason) => Err(described(reason, "failed to parse property list")),
        PropertyList::NotADictionary => Err(
            NativeAppDirectoryError::new("Info.plist root is not a dictionary"),
        ),
        PropertyList::Entries { bundle_id, display_name, bundle_name } => {
            let bundle_id = match dictionary_string("CFBundleIdentifier", bundle_id) {
                Err(error) => {
                    return Err(error);
                },
                Ok(bundle_id) => bundle_id,
            };
            let display_name = match dictionary_string("CFBundleDisplayName", display_name) {
                Err(error) => {
                    return Err(error);
                },
                Ok(display_name) => display_name,
            };
            let bundle_name = match dictionary_string("CFBundleName", bundle_name) {
                Err(error) => {
                    return Err(error);
                },
                Ok(bundle_name) => bundle_name,
            };
            Ok(BundleMetadata { bundle_id, display_name, bundle_name })
        },
    }
}

/// Whether the workspace can be asked for applications.
pub fn ensure_workspace_available(class: bool, shared: bool, applications: bool) -> (result: Result<
    (),
    NativeAppDirectoryError,
>)
    ensures
        result is Ok <==> class && shared && applications,
        result matches Err(error) ==> error.spec_message() == if !class {
            "NSWorkspace class is unavailable"@
        } else if !shared {
            "NSWorkspace shared instance is unavailable"@
        } else {
            "NSWorkspace running applications are unavailable"@
        },
{
    if !class {
        return Err(NativeAppDirectoryError::new("NSWorkspace class is unavailable"));
    }
    if !shared {
        return Err(NativeAppDirectoryError::new("NSWorkspace shared instance is unavailable"));
    }
    if !applications {
        return Err(
            NativeAppDirectoryError::new("NSWorkspace running applications are unavailable"),
        );
    }
    Ok(())
}

/// What looking up an application gave.
#[derive(Debug, PartialEq, Eq)]
pub enum ApplicationLookup {
    /// Neither locations nor an error.
    Nothing,
    /// An error with its number, and with a description if there is one.
    Failed { code: i64, description: Option<String> },
    /// No location.
    Empty,
    /// A first location that is invalid.
    InvalidUrl,
    /// A first location that is not in the file system.
    NoPath,
    /// The path of the first location, or why it cannot be read.
    Path(Result<String, NativeAppDirectoryError>),
}

/// Where an application is installed. One that is not installed is none.
pub fn application_path_for_bundle_id(lookup: ApplicationLookup) -> (path: Result<
    Option<String>,
    NativeAppDirectoryError,
>)
    ensures
        match lookup {
            ApplicationLookup::Nothing => path matches Err(error) && error.spec_message()
                == "LaunchServices application lookup returned neither URLs nor an error"@,
            ApplicationLookup::Failed { code, description } => if code
                == APPLICATION_NOT_FOUND_ERROR_CODE {
                path == Ok::<Option<String>, NativeAppDirectoryError>(None)
            } else {
                path matches Err(error) && error.spec_message() == match description {
                    Some(reason) => reason@,
                    None => "LaunchServices application lookup failed without a description"@,
                }
            },
            ApplicationLookup::Empty => path == Ok::<Option<String>, NativeAppDirectoryError>(None),
            ApplicationLookup::InvalidUrl => path matches Err(error) && error.spec_message()
                == "LaunchServices returned an invalid application URL"@,
            ApplicationLookup::NoPath => path matches Err(error) && error.spec_message()
                == "LaunchServices application URL has no filesystem path"@,
            ApplicationLookup::Path(Ok(found)) => path == Ok::<
                Option<String>,
                NativeAppDirectoryError,
            >(Some(found)),
            ApplicationLookup::Path(Err(error)) => path == Err::<
                Option<String>,
                NativeAppDirectoryError,
            >(error),
        },
{
    match lookup {
        ApplicationLookup::Nothing => Err(
            NativeAppDirectoryError::new(
                "LaunchServices application lookup returned neither URLs nor an error",
            ),
        ),
        ApplicationLookup::Failed { code, description } => {
            if code == APPLICATION_NOT_FOUND_ERROR_CODE {
                Ok(None)
            } else {
                Err(
                    described(
                        description,
                        "LaunchServices application lookup failed without a description",
                    ),
                )
            }
        },
        ApplicationLookup::Empty => Ok(None),
        ApplicationLookup::InvalidUrl => Err(
            NativeAppDirectoryError::new("LaunchServices returned an invalid application URL"),
        ),
        ApplicationLookup::NoPath => Err(
            NativeAppDirectoryError::new("LaunchServices application URL has no filesystem path"),
        ),
        ApplicationLookup::Path(Ok(found)) => Ok(Some(found)),
        ApplicationLookup::Path(Err(error)) => Err(error),
    }
}

/// An entry that is missing is none, a text is that text, and anything else is an error that names
/// the entry.
pub proof fn law_entries_are_texts(
    key: &str,
    value: PropertyValue,
    result: Result<Option<String>, NativeAppDirectoryError>,
)
    requires
        call_ensures(dictionary_string, (key, value), result),
    ensures
        result == Ok::<Option<String>, NativeAppDirectoryError>(None) <==> value is Missing,
        (result matches Ok(Some(text)) ==> value == PropertyValue::Text(text)),
        value is Text <==> (result matches Ok(Some(_))),
        result is Err <==> value is Other,
{
}

/// An application is told by its three entries, each from its own place; an entry that is no text
/// makes the whole list an error, and so does a list that is none.
pub proof fn law_metadata_keeps_its_entries(
    list: PropertyList,
    metadata: Result<BundleMetadata, NativeAppDirectoryError>,
)
    requires
        call_ensures(parse_info_plist, (list,), metadata),
    ensures
        metadata is Ok <==> (list matches PropertyList::Entries {
            bundle_id,
            display_name,
            bundle_name,
        } && bundle_id !is Other && display_name !is Other && bundle_name !is Other),
        metadata matches Ok(read) ==> (list matches PropertyList::Entries {
            bundle_id,
            display_name,
            bundle_name,
        } && entry_of(bundle_id) == read.bundle_id && entry_of(display_name) == read.display_name
            && entry_of(bundle_name) == read.bundle_name),
{
}

/// The text of an entry, if it is one.
pub open spec fn entry_of(value: PropertyValue) -> Option<String> {
    match value {
        PropertyValue::Text(text) => Some(text),
        _ => None,
    }
}

/// An application that is not installed has no path, which is no error; a path that was found is the
/// answer. Everything else is an error.
pub proof fn law_missing_applications_are_no_error(
    lookup: ApplicationLookup,
    path: Result<Option<String>, NativeAppDirectoryError>,
)
    requires
        call_ensures(application_path_for_bundle_id, (lookup,), path),
    ensures
        path matches Ok(Some(found)) ==> lookup == ApplicationLookup::Path(Ok(found)),
        lookup matches ApplicationLookup::Path(Ok(found)) ==> path == Ok::<
            Option<String>,
            NativeAppDirectoryError,
        >(Some(found)),
        lookup matches ApplicationLookup::Failed { code, .. } ==> (path == Ok::<
            Option<String>,
            NativeAppDirectoryError,
        >(None) <==> code == -10_814),
        lookup is Nothing || lookup is InvalidUrl || lookup is NoPath ==> path is Err,
        lookup matches ApplicationLookup::Path(Err(_)) ==> path is Err,
{
}

} // verus!
