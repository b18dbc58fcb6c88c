//! Scripts that ask a browser for its window, and what they answer.

use vstd::prelude::*;

use crate::permission::SAFARI_BUNDLE_ID;
use crate::text;
use crate::text::{as_text, chars_of, copy_text, format_decimal, is_text, matches_at};
use crate::text_capture::policy::CHROME_BUNDLE_ID;

verus! {

/// Asks Chrome for its front window.
pub const FRONT_WINDOW_SCRIPT_TEMPLATE: &'static str = r#"
using terms from application "{application_path}"
with timeout of 1 second
    if not (running of application id "{bundle_id}") then return {"not_running"}
    tell application id "{bundle_id}"
        if (count of windows) is 0 then return {"no_window"}
        set current_window to front window
        set current_mode to (mode of current_window) as text
        if current_mode is "incognito" then return {"incognito"}
        if current_mode is not "normal" then return {"unsupported_mode", current_mode}
        set current_tab to active tab of current_window
        return {"snapshot", (id of current_window) as text, name of current_window, (id of current_tab) as text, URL of current_tab, title of current_tab}
    end tell
end timeout
end using terms from
"#;

/// Asks Chrome for one window.
pub const TARGET_WINDOW_SCRIPT_TEMPLATE: &'static str = r#"
using terms from application "{application_path}"
with timeout of 1 second
    if not (running of application id "{bundle_id}") then return {"not_running"}
    tell application id "{bundle_id}"
        if not (exists window id "{window_id}") then return {"no_window"}
        set current_window to window id "{window_id}"
        set current_mode to (mode of current_window) as text
        if current_mode is "incognito" then return {"incognito"}
        if current_mode is not "normal" then return {"unsupported_mode", current_mode}
        set current_tab to active tab of current_window
        return {"snapshot", (id of current_window) as text, name of current_window, (id of current_tab) as text, URL of current_tab, title of current_tab}
    end tell
end timeout
end using terms from
"#;

/// Asks Safari for its front window.
pub const SAFARI_FRONT_WINDOW_SCRIPT_TEMPLATE: &'static str = r#"
using terms from application "{application_path}"
with timeout of 1 second
    if not (running of application id "{bundle_id}") then return {"not_running"}
    tell application id "{bundle_id}"
        if (count of windows) is 0 then return {"no_window"}
        set current_window to front window
        set current_tab to current tab of current_window
        return {"snapshot", (id of current_window) as text, name of current_window, URL of current_tab, name of current_tab}
    end tell
end timeout
end using terms from
"#;

/// Asks Safari for one window.
pub const SAFARI_TARGET_WINDOW_SCRIPT_TEMPLATE: &'static str = r#"
using terms from application "{application_path}"
with timeout of 1 second
    if not (running of application id "{bundle_id}") then return {"not_running"}
    tell application id "{bundle_id}"
        if not (exists window id "{window_id}") then return {"no_window"}
        set current_window to window id "{window_id}"
        set current_tab to current tab of current_window
        return {"snapshot", (id of current_window) as text, name of current_window, URL of current_tab, name of current_tab}
    end tell
end timeout
end using terms from
"#;

pub const SNAPSHOT_ITEM_COUNT: usize = 6;

pub const SAFARI_SNAPSHOT_ITEM_COUNT: usize = 5;

pub const STATUS_ITEM_COUNT: usize = 1;

pub const UNSUPPORTED_MODE_ITEM_COUNT: usize = 2;

/// The browser's own name of a window.
#[derive(Debug, PartialEq, Eq)]
pub struct AppleScriptWindowId {
    pub id: String,
}

impl AppleScriptWindowId {
    /// The name that a browser answered with.
    pub fn from_response(id: String) -> (window_id: Self)
        ensures
            window_id.id == id,
    {
        AppleScriptWindowId { id }
    }

    /// The name as text.
    pub fn as_str(&self) -> (id: &str)
        ensures
            id@ == self.id@,
    {
        self.id.as_str()
    }
}

/// The browser that is asked.
#[derive(Clone, Copy, Debug, PartialEq, Eq, Structural)]
pub enum BrowserTarget {
    Chrome,
    Safari,
}

/// A window of Chrome.
#[derive(Debug, PartialEq, Eq)]
pub struct Snapshot {
    pub window_id: AppleScriptWindowId,
    pub window_title: Option<String>,
    pub tab_key: String,
    pub url: String,
    pub tab_title: Option<String>,
}

/// A window of Safari, which tells less.
#[derive(Debug, PartialEq, Eq)]
pub struct SafariSnapshot {
    pub window_id: AppleScriptWindowId,
    pub window_title: Option<String>,
    pub url: Option<String>,
    pub tab_title: Option<String>,
}

/// What a browser answered.
#[derive(Debug, PartialEq, Eq)]
pub enum Observation {
    ChromeSnapshot(Snapshot),
    SafariSnapshot(SafariSnapshot),
    Incognito,
    NoWindow,
    NotRunning,
}

/// Why an answer cannot be used.
#[derive(Clone, Copy, Debug, PartialEq, Eq, Structural)]
pub enum AppleScriptResponseError {
    EmptyDescriptorList,
    UnsupportedModeLength,
    UnknownStatus,
    StatusLength,
    SnapshotLength,
    RequiredItemNotText,
    StringContainsNul,
}

impl AppleScriptResponseError {
    pub open spec fn spec_message(self) -> Seq<char> {
        match self {
            AppleScriptResponseError::EmptyDescriptorList => "empty descriptor list"@,
            AppleScriptResponseError::UnsupportedModeLength =>
                "unsupported-mode response has the wrong length"@,
            AppleScriptResponseError::UnknownStatus => "unknown response status"@,
            AppleScriptResponseError::StatusLength => "status response has the wrong length"@,
            AppleScriptResponseError::SnapshotLength => "snapshot response has the wrong length"@,
            AppleScriptResponseError::RequiredItemNotText =>
                "required descriptor item is not text"@,
            AppleScriptResponseError::StringContainsNul => "string contains a NUL byte"@,
        }
    }

    /// What is wrong with the answer.
    pub fn message(self) -> (message: &'static str)
        ensures
            message@ == self.spec_message(),
    {
        match self {
            AppleScriptResponseError::EmptyDescriptorList => "empty descriptor list",
            AppleScriptResponseError::UnsupportedModeLength =>
                "unsupported-mode response has the wrong length",
            AppleScriptResponseError::UnknownStatus => "unknown response status",
            AppleScriptResponseError::StatusLength => "status response has the wrong length",
            AppleScriptResponseError::SnapshotLength => "snapshot response has the wrong length",
            AppleScriptResponseError::RequiredItemNotText => "required descriptor item is not text",
            AppleScriptResponseError::StringContainsNul => "string contains a NUL byte",
        }
    }
}

/// Why a browser could not be asked.
#[derive(Clone, Copy, Debug, PartialEq, Eq)]
pub enum AppleScriptError {
    ClassUnavailable(&'static str),
    Allocation(&'static str),
    ChromeUnavailable,
    SafariUnavailable,
    Compile { code: Option<i64> },
    Execute { code: Option<i64> },
    InvalidResponse(AppleScriptResponseError),
    UnsupportedMode,
}

/// A number that may be missing, as diagnostics show it.
pub open spec fn code_text(code: Option<i64>) -> Seq<char> {
    match code {
        Some(code) => "Some("@ + text::decimal(code as int) + ")"@,
        None => "None"@,
    }
}

impl AppleScriptError {
    pub open spec fn spec_message(self) -> Seq<char> {
        match self {
            AppleScriptError::ClassUnavailable(class) => "Objective-C class "@ + class@
                + " is unavailable"@,
            AppleScriptError::Allocation(class) => "failed to allocate "@ + class@,
            AppleScriptError::ChromeUnavailable => "Google Chrome is not installed"@,
            AppleScriptError::SafariUnavailable => "Safari is not installed"@,
            AppleScriptError::Compile { code } => "AppleScript compilation failed (code "@
                + code_text(code) + ")"@,
            AppleScriptError::Execute { code } => "AppleScript execution failed (code "@
                + code_text(code) + ")"@,
            AppleScriptError::InvalidResponse(error) =>
                "AppleScript returned an invalid Chrome response: "@ + error.spec_message(),
            AppleScriptError::UnsupportedMode => "Chrome returned an unsupported window mode"@,
        }
    }

    /// What went wrong.
    pub fn message(&self) -> (message: String)
        ensures
            message@ == self.spec_message(),
    {
        match self {
            AppleScriptError::ClassUnavailable(class) => {
                let mut message = "Objective-C class ".to_owned();
                message.append(class);
                message.append(" is unavailable");
                message
            },
            AppleScriptError::Allocation(class) => {
                let mut message = "failed to allocate ".to_owned();
                message.append(class);
                message
            },
            AppleScriptError::ChromeUnavailable => "Google Chrome is not installed".to_owned(),
            AppleScriptError::SafariUnavailable => "Safari is not installed".to_owned(),
            AppleScriptError::Compile { code } => {
                let mut message = "AppleScript compilation failed (code ".to_owned();
                append_code(&mut message, *code);
                message.append(")");
                message
            },
            AppleScriptError::Execute { code } => {
                let mut message = "AppleScript execution failed (code ".to_owned();
                append_code(&mut message, *code);
                message.append(")");
                message
            },
            AppleScriptError::InvalidResponse(error) => {
                let mut message = "AppleScript returned an invalid Chrome response: ".to_owned();
                message.append(error.message());
                message
            },
            AppleScriptError::UnsupportedMode => {
                "Chrome returned an unsupported window mode".to_owned()
            },
        }
    }
}

fn append_code(message: &mut String, code: Option<i64>)
    ensures
        final(message)@ == old(message)@ + code_text(code),
{
    let ghost before = message@;
    match code {
        Some(code) => {
            message.append("Some(");
            let number = format_decimal(code);
            message.append(number.as_str());
            message.append(")");
            assert(message@ =~= before + code_text(Some(code)));
        },
        None => {
            message.append("None");
        },
    }
}

impl BrowserTarget {
    pub open spec fn spec_bundle_id(self) -> Seq<char> {
        match self {
            BrowserTarget::Chrome => CHROME_BUNDLE_ID@,
            BrowserTarget::Safari => SAFARI_BUNDLE_ID@,
        }
    }

    pub open spec fn spec_front_template(self) -> Seq<char> {
        match self {
            BrowserTarget::Chrome => FRONT_WINDOW_SCRIPT_TEMPLATE@,
            BrowserTarget::Safari => SAFARI_FRONT_WINDOW_SCRIPT_TEMPLATE@,
        }
    }

    pub open spec fn spec_target_template(self) -> Seq<char> {
        match self {
            BrowserTarget::Chrome => TARGET_WINDOW_SCRIPT_TEMPLATE@,
            BrowserTarget::Safari => SAFARI_TARGET_WINDOW_SCRIPT_TEMPLATE@,
        }
    }
}

/// The bundle identifier of a browser.
pub fn bundle_id(target: BrowserTarget) -> (id: &'static str)
    ensures
        id@ == target.spec_bundle_id(),
{
    match target {
        BrowserTarget::Chrome => CHROME_BUNDLE_ID,
        BrowserTarget::Safari => SAFARI_BUNDLE_ID,
    }
}

/// A browser that is not installed has no path.
pub fn application_path(target: BrowserTarget, path: Option<String>) -> (found: Result<
    String,
    AppleScriptError,
>)
    ensures
        found == match (path, target) {
            (Some(path), _) => Ok::<String, AppleScriptError>(path),
            (None, BrowserTarget::Chrome) => Err(AppleScriptError::ChromeUnavailable),
            (None, BrowserTarget::Safari) => Err(AppleScriptError::SafariUnavailable),
        },
{
    match path {
        Some(path) => Ok(path),
        None => match target {
            BrowserTarget::Chrome => Err(AppleScriptError::ChromeUnavailable),
            BrowserTarget::Safari => Err(AppleScriptError::SafariUnavailable),
        },
    }
}

/// One character of a string literal.
pub open spec fn escaped_char(c: char) -> Seq<char> {
    if c == '\\' {
        seq!['\\', '\\']
    } else if c == '"' {
        seq!['\\', '"']
    } else {
        seq![c]
    }
}

/// A text as the inside of a string literal: backslashes and quotes are escaped.
pub open spec fn escaped(value: Seq<char>) -> Seq<char>
    decreases value.len(),
{
    if value.len() == 0 {
        Seq::empty()
    } else {
        escaped(value.drop_last()) + escaped_char(value.last())
    }
}

/// A text as the inside of a string literal.
pub fn escape_applescript_string(value: &str) -> (literal: String)
    ensures
        literal@ == escaped(value@),
{
    let chars = chars_of(value);
    let mut literal = String::new();
    let mut index: usize = 0;
    assert(value@.take(0) =~= Seq::empty());
    while index < chars.len()
        invariant
            chars@ == value@,
            index <= chars@.len(),
            literal@ == escaped(value@.take(index as int)),
        decreases chars.len() - index,
    {
        let ghost before = literal@;
        if chars[index] == '\\' {
            literal.append("\\\\");
            proof {
                reveal_strlit("\\\\");
                assert("\\\\"@ =~= seq!['\\', '\\']);
            }
        } else if chars[index] == '"' {
            literal.append("\\\"");
            proof {
                reveal_strlit("\\\"");
                assert("\\\""@ =~= seq!['\\', '"']);
            }
        } else {
            literal.append(value.substring_char(index, index + 1));
            assert(value@.subrange(index as int, index + 1) =~= seq![value@[index as int]]);
        }
        proof {
            let next = value@.take(index + 1);
            assert(next.drop_last() =~= value@.take(index as int));
            assert(next.last() == value@[index as int]);
            assert(literal@ =~= before + escaped_char(value@[index as int]));
        }
        index = index + 1;
    }
    assert(value@.take(index as int) =~= value@);
    literal
}

/// What a script's markers stand for.
pub struct ScriptValues {
    pub bundle_id: Seq<char>,
    pub application_path: Seq<char>,
    pub window_id: Option<Seq<char>>,
}

/// Whether a text begins with a marker.
pub open spec fn begins_with(script: Seq<char>, marker: Seq<char>) -> bool {
    marker.len() > 0 && text::occurs_at(script, marker, 0)
}

/// A script with every marker replaced by its value. A value is not looked at
/// again, so a marker in it stays as it is.
pub open spec fn substituted(script: Seq<char>, values: ScriptValues) -> Seq<char>
    decreases script.len(),
{
    if script.len() == 0 {
        Seq::empty()
    } else if begins_with(script, "{bundle_id}"@) {
        values.bundle_id + substituted(script.skip("{bundle_id}"@.len() as int), values)
    } else if begins_with(script, "{application_path}"@) {
        values.application_path + substituted(
            script.skip("{application_path}"@.len() as int),
            values,
        )
    } else if values.window_id is Some && begins_with(script, "{window_id}"@) {
        values.window_id->0 + substituted(script.skip("{window_id}"@.len() as int), values)
    } else {
        seq![script[0]] + substituted(script.skip(1), values)
    }
}

fn stands_at(chars: &Vec<char>, marker: &Vec<char>, at: usize) -> (found: bool)
    requires
        at < chars@.len(),
    ensures
        found == begins_with(chars@.skip(at as int), marker@),
        found ==> at + marker@.len() <= chars@.len() && marker@.len() > 0,
{
    let found = marker.len() > 0 && matches_at(chars, marker, at);
    proof {
        let rest = chars@.skip(at as int);
        if at + marker@.len() <= chars@.len() {
            assert(rest.subrange(0, marker@.len() as int) =~= chars@.subrange(
                at as int,
                at + marker@.len(),
            ));
        }
    }
    found
}

fn render(template: &str, bundle_id: &str, application_path: &str, window_id: Option<&str>) -> (
    script: String)
    ensures
        script@ == substituted(
            template@,
            ScriptValues {
                bundle_id: bundle_id@,
                application_path: application_path@,
                window_id: text::str_view(window_id),
            },
        ),
{
    let ghost values = ScriptValues {
        bundle_id: bundle_id@,
        application_path: application_path@,
        window_id: text::str_view(window_id),
    };
    let chars = chars_of(template);
    let bundle_marker = chars_of("{bundle_id}");
    let path_marker = chars_of("{application_path}");
    let window_marker = chars_of("{window_id}");
    let mut script = String::new();
    let mut start: usize = 0;
    let mut index: usize = 0;
    let ghost whole = substituted(template@, values);
    proof {
        assert(template@.skip(0) =~= template@);
        assert(script@ + template@.subrange(0, 0) + whole =~= whole);
    }
    while index < chars.len()
        invariant
            chars@ == template@,
            bundle_marker@ == "{bundle_id}"@,
            path_marker@ == "{application_path}"@,
            window_marker@ == "{window_id}"@,
            values.bundle_id == bundle_id@,
            values.application_path == application_path@,
            values.window_id == text::str_view(window_id),
            start <= index <= chars@.len(),
            script@ + template@.subrange(start as int, index as int) + substituted(
                template@.skip(index as int),
                values,
            ) == whole,
        decreases chars.len() - index,
    {
        let ghost before = script@;
        let ghost run = template@.subrange(start as int, index as int);
        let ghost rest = template@.skip(index as int);
        let at_bundle = stands_at(&chars, &bundle_marker, index);
        let at_path = stands_at(&chars, &path_marker, index);
        let at_window = stands_at(&chars, &window_marker, index);
        let (value, length) = if at_bundle {
            (Some(bundle_id), bundle_marker.len())
        } else if at_path {
            (Some(application_path), path_marker.len())
        } else if at_window {
            (window_id, window_marker.len())
        } else {
            (None, 0)
        };
        match value {
            Some(value) => {
                script.append(template.substring_char(start, index));
                script.append(value);
                index = index + length;
                start = index;
                proof {
                    let remaining = substituted(template@.skip(index as int), values);
                    assert(rest.skip(length as int) =~= template@.skip(index as int));
                    assert(substituted(rest, values) == value@ + remaining);
                    assert(script@ =~= before + run + value@);
                    assert(script@ + template@.subrange(start as int, index as int) + remaining
                        =~= before + run + substituted(rest, values));
                }
            },
            None => {
                index = index + 1;
                proof {
                    let remaining = substituted(template@.skip(index as int), values);
                    assert(rest.skip(1) =~= template@.skip(index as int));
                    assert(rest[0] == template@[index - 1]);
                    assert(substituted(rest, values) == seq![rest[0]] + remaining);
                    assert(template@.subrange(start as int, index as int) =~= run.push(rest[0]));
                    assert(script@ + template@.subrange(start as int, index as int) + remaining
                        =~= before + run + substituted(rest, values));
                }
            },
        }
    }
    script.append(template.substring_char(start, index));
    assert(template@.skip(index as int) =~= Seq::empty());
    assert(script@ =~= whole);
    script
}

/// The script that asks for the front window.
pub fn front_window_source(target: BrowserTarget, application_path: &str) -> (source: String)
    ensures
        source@ == substituted(
            target.spec_front_template(),
            ScriptValues {
                bundle_id: target.spec_bundle_id(),
                application_path: escaped(application_path@),
                window_id: None,
            },
        ),
{
    let template = match target {
        BrowserTarget::Chrome => FRONT_WINDOW_SCRIPT_TEMPLATE,
        BrowserTarget::Safari => SAFARI_FRONT_WINDOW_SCRIPT_TEMPLATE,
    };
    let path = escape_applescript_string(application_path);
    render(template, bundle_id(target), path.as_str(), None)
}

/// The script that asks for one window.
pub fn target_window_source(
    target: BrowserTarget,
    application_path: &str,
    window_id: &AppleScriptWindowId,
) -> (source: String)
    ensures
        source@ == substituted(
            target.spec_target_template(),
            ScriptValues {
                bundle_id: target.spec_bundle_id(),
                application_path: escaped(application_path@),
                window_id: Some(escaped(window_id.id@)),
            },
        ),
{
    let template = match target {
        BrowserTarget::Chrome => TARGET_WINDOW_SCRIPT_TEMPLATE,
        BrowserTarget::Safari => SAFARI_TARGET_WINDOW_SCRIPT_TEMPLATE,
    };
    let path = escape_applescript_string(application_path);
    let window = escape_applescript_string(window_id.as_str());
    render(template, bundle_id(target), path.as_str(), Some(window.as_str()))
}

/// Whether an answer begins with a status.
pub open spec fn has_status(items: Seq<Option<String>>, status: Seq<char>) -> bool {
    items.len() > 0 && text::text_view(items[0]) == Some(status)
}

pub open spec fn invalid(error: AppleScriptResponseError) -> AppleScriptError {
    AppleScriptError::InvalidResponse(error)
}

/// What an answer of Chrome means.
pub open spec fn chrome_snapshot_of(items: Seq<Option<String>>) -> Result<
    Snapshot,
    AppleScriptError,
> {
    if items.len() != SNAPSHOT_ITEM_COUNT {
        Err(invalid(AppleScriptResponseError::SnapshotLength))
    } else {
        match (items[1], items[3], items[4]) {
            (Some(id), Some(tab_key), Some(url)) => Ok(
                Snapshot {
                    window_id: AppleScriptWindowId { id },
                    window_title: items[2],
                    tab_key,
                    url,
                    tab_title: items[5],
                },
            ),
            _ => Err(invalid(AppleScriptResponseError::RequiredItemNotText)),
        }
    }
}

/// What an answer of Safari means.
pub open spec fn safari_snapshot_of(items: Seq<Option<String>>) -> Result<
    SafariSnapshot,
    AppleScriptError,
> {
    if items.len() != SAFARI_SNAPSHOT_ITEM_COUNT {
        Err(invalid(AppleScriptResponseError::SnapshotLength))
    } else {
        match items[1] {
            Some(id) => Ok(
                SafariSnapshot {
                    window_id: AppleScriptWindowId { id },
                    window_title: items[2],
                    url: items[3],
                    tab_title: items[4],
                },
            ),
            None => Err(invalid(AppleScriptResponseError::RequiredItemNotText)),
        }
    }
}

/// What an answer that is a status alone means.
pub open spec fn status_of(item_count: nat, observation: Observation) -> Result<
    Observation,
    AppleScriptError,
> {
    if item_count == STATUS_ITEM_COUNT {
        Ok(observation)
    } else {
        Err(invalid(AppleScriptResponseError::StatusLength))
    }
}

/// What an answer means. A private window is known of Chrome only.
pub open spec fn answer_of(target: BrowserTarget, items: Seq<Option<String>>) -> Result<
    Observation,
    AppleScriptError,
> {
    if items.len() == 0 || items[0] is None {
        Err(invalid(AppleScriptResponseError::RequiredItemNotText))
    } else if has_status(items, "snapshot"@) {
        match target {
            BrowserTarget::Chrome => match chrome_snapshot_of(items) {
                Ok(snapshot) => Ok(Observation::ChromeSnapshot(snapshot)),
                Err(error) => Err(error),
            },
            BrowserTarget::Safari => match safari_snapshot_of(items) {
                Ok(snapshot) => Ok(Observation::SafariSnapshot(snapshot)),
                Err(error) => Err(error),
            },
        }
    } else if has_status(items, "incognito"@) && target == BrowserTarget::Chrome {
        status_of(items.len(), Observation::Incognito)
    } else if has_status(items, "no_window"@) {
        status_of(items.len(), Observation::NoWindow)
    } else if has_status(items, "not_running"@) {
        status_of(items.len(), Observation::NotRunning)
    } else if has_status(items, "unsupported_mode"@) && target == BrowserTarget::Chrome {
        if items.len() != UNSUPPORTED_MODE_ITEM_COUNT {
            Err(invalid(AppleScriptResponseError::UnsupportedModeLength))
        } else if items[1] is None {
            Err(invalid(AppleScriptResponseError::RequiredItemNotText))
        } else {
            Err(AppleScriptError::UnsupportedMode)
        }
    } else {
        Err(invalid(AppleScriptResponseError::UnknownStatus))
    }
}

/// An item that has to be text.
pub fn required_item(items: &Vec<Option<String>>, index: usize) -> (item: Result<
    String,
    AppleScriptError,
>)
    ensures
        item == if index < items@.len() && items@[index as int] is Some {
            Ok::<String, AppleScriptError>(items@[index as int]->0)
        } else {
            Err(invalid(AppleScriptResponseError::RequiredItemNotText))
        },
{
    match optional_item(items, index) {
        Some(item) => Ok(item),
        None => Err(
            AppleScriptError::InvalidResponse(AppleScriptResponseError::RequiredItemNotText),
        ),
    }
}

/// An item that may be missing.
pub fn optional_item(items: &Vec<Option<String>>, index: usize) -> (item: Option<String>)
    ensures
        item == if index < items@.len() {
            items@[index as int]
        } else {
            None
        },
{
    if index < items.len() {
        copy_text(&items[index])
    } else {
        None
    }
}

fn parse_status(item_count: usize, observation: Observation) -> (result: Result<
    Observation,
    AppleScriptError,
>)
    ensures
        result == status_of(item_count as nat, observation),
{
    if item_count == STATUS_ITEM_COUNT {
        Ok(observation)
    } else {
        Err(AppleScriptError::InvalidResponse(AppleScriptResponseError::StatusLength))
    }
}

fn parse_chrome_snapshot(items: &Vec<Option<String>>) -> (snapshot: Result<
    Snapshot,
    AppleScriptError,
>)
    ensures
        snapshot == chrome_snapshot_of(items@),
{
    if items.len() != SNAPSHOT_ITEM_COUNT {
        return Err(AppleScriptError::InvalidResponse(AppleScriptResponseError::SnapshotLength));
    }
    let id = match required_item(items, 1) {
        Err(error) => {
            return Err(error);
        },
        Ok(id) => id,
    };
    let tab_key = match required_item(items, 3) {
        Err(error) => {
            return Err(error);
        },
        Ok(tab_key) => tab_key,
    };
    let url = match required_item(items, 4) {
        Err(error) => {
            return Err(error);
        },
        Ok(url) => url,
    };
    Ok(
        Snapshot {
            window_id: AppleScriptWindowId::from_response(id),
            window_title: optional_item(items, 2),
            tab_key,
            url,
            tab_title: optional_item(items, 5),
        },
    )
}

fn parse_safari_snapshot(items: &Vec<Option<String>>) -> (snapshot: Result<
    SafariSnapshot,
    AppleScriptError,
>)
    ensures
        snapshot == safari_snapshot_of(items@),
{
    if items.len() != SAFARI_SNAPSHOT_ITEM_COUNT {
        return Err(AppleScriptError::InvalidResponse(AppleScriptResponseError::SnapshotLength));
    }
    let id = match required_item(items, 1) {
        Err(error) => {
            return Err(error);
        },
        Ok(id) => id,
    };
    Ok(
        SafariSnapshot {
            window_id: AppleScriptWindowId::from_response(id),
            window_title: optional_item(items, 2),
            url: optional_item(items, 3),
            tab_title: optional_item(items, 4),
        },
    )
}

/// Tells what an answer means.
pub fn parse_items(target: BrowserTarget, items: Vec<Option<String>>) -> (observation: Result<
    Observation,
    AppleScriptError,
>)
    ensures
        observation == answer_of(target, items@),
{
    if items.len() == 0 || items[0].is_none() {
        return Err(
            AppleScriptError::InvalidResponse(AppleScriptResponseError::RequiredItemNotText),
        );
    }
    let status = as_text(&items[0]);
    let chrome = matches!(target, BrowserTarget::Chrome);
    if is_text(status, "snapshot") {
        match target {
            BrowserTarget::Chrome => match parse_chrome_snapshot(&items) {
                Ok(snapshot) => Ok(Observation::ChromeSnapshot(snapshot)),
                Err(error) => Err(error),
            },
            BrowserTarget::Safari => match parse_safari_snapshot(&items) {
                Ok(snapshot) => Ok(Observation::SafariSnapshot(snapshot)),
                Err(error) => Err(error),
            },
        }
    } else if is_text(status, "incognito") && chrome {
        parse_status(items.len(), Observation::Incognito)
    } else if is_text(status, "no_window") {
        parse_status(items.len(), Observation::NoWindow)
    } else if is_text(status, "not_running") {
        parse_status(items.len(), Observation::NotRunning)
    } else if is_text(status, "unsupported_mode") && chrome {
        if items.len() != UNSUPPORTED_MODE_ITEM_COUNT {
            return Err(
                AppleScriptError::InvalidResponse(AppleScriptResponseError::UnsupportedModeLength),
            );
        }
        match required_item(&items, 1) {
            Err(error) => Err(error),
            Ok(_) => Err(AppleScriptError::UnsupportedMode),
        }
    } else {
        Err(AppleScriptError::InvalidResponse(AppleScriptResponseError::UnknownStatus))
    }
}

/// Whether `items` are the items of a reply, read one by one from the first.
pub open spec fn reply_items<R: Fn(isize) -> Option<String>>(
    item_count: isize,
    read_item: R,
    items: Seq<Option<String>>,
) -> bool {
    &&& items.len() == item_count
    &&& forall|i: int|
        0 <= i < items.len() ==> call_ensures(read_item, ((i + 1) as isize,), #[trigger] items[i])
}

/// Reads the items of a reply, which are numbered from one, and tells what they
/// mean.
pub fn parse_reply<R: Fn(isize) -> Option<String>>(
    target: BrowserTarget,
    item_count: isize,
    read_item: &R,
) -> (observation: Result<Observation, AppleScriptError>)
    requires
        forall|index: isize|
            1 <= index <= item_count ==> #[trigger] call_requires(*read_item, (index,)),
    ensures
        item_count < 1 ==> observation == Err::<Observation, AppleScriptError>(
            invalid(AppleScriptResponseError::EmptyDescriptorList),
        ),
        item_count >= 1 ==> exists|items: Seq<Option<String>>| #[trigger]
            reply_items(item_count, *read_item, items) && observation == answer_of(target, items),
{
    if item_count < 1 {
        return Err(
            AppleScriptError::InvalidResponse(AppleScriptResponseError::EmptyDescriptorList),
        );
    }
    let mut items: Vec<Option<String>> = Vec::new();
    let mut index: isize = 0;
    while index < item_count
        invariant
            0 <= index <= item_count,
            items@.len() == index,
            forall|index: isize|
                1 <= index <= item_count ==> #[trigger] call_requires(*read_item, (index,)),
            forall|i: int|
                0 <= i < items@.len() ==> call_ensures(
                    *read_item,
                    ((i + 1) as isize,),
                    #[trigger] items@[i],
                ),
        decreases item_count - index,
    {
        index = index + 1;
        let item = read_item(index);
        items.push(item);
    }
    assert(reply_items(item_count, *read_item, items@));
    parse_items(target, items)
}

/// An answer of Safari never reports a private window, and one of Chrome never
/// comes without a tab and its address.
pub proof fn law_answers_keep_to_their_browser(items: Seq<Option<String>>)
    ensures
        answer_of(BrowserTarget::Safari, items) != Ok::<Observation, AppleScriptError>(
            Observation::Incognito,
        ),
        !(answer_of(BrowserTarget::Safari, items) matches Ok(Observation::ChromeSnapshot(_))),
        !(answer_of(BrowserTarget::Chrome, items) matches Ok(Observation::SafariSnapshot(_))),
        answer_of(BrowserTarget::Chrome, items) matches Ok(Observation::ChromeSnapshot(snapshot))
            ==> items.len() == SNAPSHOT_ITEM_COUNT && items[3] == Some(snapshot.tab_key)
            && items[4] == Some(snapshot.url),
{
}

/// Whether every quote of a text follows a backslash, and every backslash begins
/// a pair.
pub open spec fn is_literal_body(body: Seq<char>) -> bool
    decreases body.len(),
{
    if body.len() == 0 {
        true
    } else if body[0] == '\\' {
        body.len() >= 2 && is_literal_body(body.skip(2))
    } else {
        body[0] != '"' && is_literal_body(body.skip(1))
    }
}

proof fn lemma_literal_concat(first: Seq<char>, second: Seq<char>)
    requires
        is_literal_body(first),
        is_literal_body(second),
    ensures
        is_literal_body(first + second),
    decreases first.len(),
{
    if first.len() == 0 {
        assert(first + second =~= second);
    } else if first[0] == '\\' {
        lemma_literal_concat(first.skip(2), second);
        assert((first + second).skip(2) =~= first.skip(2) + second);
    } else {
        lemma_literal_concat(first.skip(1), second);
        assert((first + second).skip(1) =~= first.skip(1) + second);
    }
}

/// An escaped value stays inside its string literal, whatever it holds.
pub proof fn law_escaped_value_is_one_literal(value: Seq<char>)
    ensures
        is_literal_body(escaped(value)),
    decreases value.len(),
{
    if value.len() > 0 {
        law_escaped_value_is_one_literal(value.drop_last());
        let last = escaped_char(value.last());
        assert(is_literal_body(last)) by {
            reveal_with_fuel(is_literal_body, 3);
            if last.len() == 2 {
                assert(last.skip(2) =~= Seq::empty());
            } else {
                assert(last.skip(1) =~= Seq::empty());
            }
        }
        lemma_literal_concat(escaped(value.drop_last()), last);
    }
}

/// What the inside of a string literal stands for: a backslash gives the character
/// that follows it.
pub open spec fn unescaped(body: Seq<char>) -> Seq<char>
    decreases body.len(),
{
    if body.len() == 0 {
        Seq::empty()
    } else if body[0] == '\\' && body.len() >= 2 {
        seq![body[1]] + unescaped(body.skip(2))
    } else {
        seq![body[0]] + unescaped(body.skip(1))
    }
}

proof fn lemma_unescaped_concat(first: Seq<char>, second: Seq<char>)
    requires
        is_literal_body(first),
    ensures
        unescaped(first + second) == unescaped(first) + unescaped(second),
    decreases first.len(),
{
    if first.len() == 0 {
        assert(first + second =~= second);
        assert(unescaped(first) + unescaped(second) =~= unescaped(second));
    } else {
        let taken: int = if first[0] == '\\' {
            2
        } else {
            1
        };
        lemma_unescaped_concat(first.skip(taken), second);
        assert((first + second).skip(taken) =~= first.skip(taken) + second);
        assert(unescaped(first + second) =~= unescaped(first) + unescaped(second));
    }
}

/// An escaped value reads back as the value, whatever it holds.
pub proof fn law_escaped_value_reads_back(value: Seq<char>)
    ensures
        unescaped(escaped(value)) == value,
    decreases value.len(),
{
    if value.len() > 0 {
        let init = value.drop_last();
        let last = escaped_char(value.last());
        law_escaped_value_reads_back(init);
        law_escaped_value_is_one_literal(init);
        lemma_unescaped_concat(escaped(init), last);
        assert(unescaped(last) =~= seq![value.last()]) by {
            reveal_with_fuel(unescaped, 3);
            if last.len() == 2 {
                assert(last.skip(2) =~= Seq::empty());
            } else {
                assert(last.skip(1) =~= Seq::empty());
            }
        }
        assert(unescaped(escaped(value)) =~= init + seq![value.last()]);
        assert(init + seq![value.last()] =~= value);
    }
}

/// Different values have different literals.
pub proof fn law_escaping_is_injective(left: Seq<char>, right: Seq<char>)
    requires
        escaped(left) == escaped(right),
    ensures
        left == right,
{
    law_escaped_value_reads_back(left);
    law_escaped_value_reads_back(right);
}

/// A snapshot answers in the order of the script's return list. Of Chrome it has six
/// items: the status, the window's id and title, the tab's key, address and title. Of
/// Safari it has five: the status, the window's id and title, the address and the
/// tab's title. An answer of that shape is a snapshot.
pub proof fn law_snapshot_items_are_taken_in_order(
    target: BrowserTarget,
    items: Vec<Option<String>>,
    observation: Result<Observation, AppleScriptError>,
)
    requires
        call_ensures(parse_items, (target, items), observation),
    ensures
        observation matches Ok(Observation::SafariSnapshot(snapshot)) ==> {
            &&& target is Safari
            &&& items@.len() == 5
            &&& items@[1] == Some(snapshot.window_id.id)
            &&& items@[2] == snapshot.window_title
            &&& items@[3] == snapshot.url
            &&& items@[4] == snapshot.tab_title
        },
        observation matches Ok(Observation::ChromeSnapshot(snapshot)) ==> {
            &&& target is Chrome
            &&& items@.len() == 6
            &&& items@[1] == Some(snapshot.window_id.id)
            &&& items@[2] == snapshot.window_title
            &&& items@[3] == Some(snapshot.tab_key)
            &&& items@[4] == Some(snapshot.url)
            &&& items@[5] == snapshot.tab_title
        },
        items@.len() > 0 && text::text_view(items@[0]) == Some("snapshot"@) ==> {
            &&& (observation matches Ok(Observation::SafariSnapshot(_))) <==> target is Safari
                && items@.len() == 5 && items@[1] is Some
            &&& (observation matches Ok(Observation::ChromeSnapshot(_))) <==> target is Chrome
                && items@.len() == 6 && items@[1] is Some && items@[3] is Some && items@[4] is Some
            &&& (observation matches Err(error) && error == AppleScriptError::InvalidResponse(
                AppleScriptResponseError::SnapshotLength,
            )) <==> items@.len() != if target is Safari {
                5int
            } else {
                6
            }
            &&& observation matches Err(error) ==> error == AppleScriptError::InvalidResponse(
                AppleScriptResponseError::SnapshotLength,
            ) || error == AppleScriptError::InvalidResponse(
                AppleScriptResponseError::RequiredItemNotText,
            )
        },
        items@.len() > 0 && text::text_view(items@[0]) != Some("snapshot"@) ==> !(
        observation matches Ok(Observation::SafariSnapshot(_))) && !(observation matches Ok(
            Observation::ChromeSnapshot(_),
        )),
{
    reveal_strlit("snapshot");
    reveal_strlit("incognito");
    reveal_strlit("no_window");
    reveal_strlit("not_running");
    reveal_strlit("unsupported_mode");
}

/// An answer of one item tells a state by its word: that there is no window, that the
/// browser does not run, or, of Chrome alone, that the window is private. No other
/// answer tells any of these.
pub proof fn law_states_are_told_by_their_word(
    target: BrowserTarget,
    items: Vec<Option<String>>,
    observation: Result<Observation, AppleScriptError>,
)
    requires
        call_ensures(parse_items, (target, items), observation),
    ensures
        (observation matches Ok(Observation::NoWindow)) <==> items@.len() == 1 && text::text_view(
            items@[0],
        ) == Some("no_window"@),
        (observation matches Ok(Observation::NotRunning)) <==> items@.len() == 1 && text::text_view(
            items@[0],
        ) == Some("not_running"@),
        (observation matches Ok(Observation::Incognito)) <==> target is Chrome && items@.len() == 1
            && text::text_view(items@[0]) == Some("incognito"@),
        observation == Err::<Observation, AppleScriptError>(AppleScriptError::UnsupportedMode)
            <==> target is Chrome && items@.len() == 2 && text::text_view(items@[0]) == Some(
            "unsupported_mode"@,
        ) && items@[1] is Some,
        items@.len() == 0 || items@[0] is None ==> observation == Err::<
            Observation,
            AppleScriptError,
        >(AppleScriptError::InvalidResponse(AppleScriptResponseError::RequiredItemNotText)),
{
    reveal_strlit("snapshot");
    reveal_strlit("incognito");
    reveal_strlit("no_window");
    reveal_strlit("not_running");
    reveal_strlit("unsupported_mode");
    assert("snapshot"@[0] == 's');
    assert("incognito"@[0] == 'i');
    assert("no_window"@[2] == '_');
    assert("not_running"@[2] == 't');
    assert("unsupported_mode"@[0] == 'u');
}

/// The items of a reply are read by their numbers, from one: a snapshot of Safari
/// takes its window from the second, its title from the third, its address from the
/// fourth and its tab's title from the fifth; a snapshot of Chrome has the tab's key
/// before the address. A reply without items tells nothing.
pub proof fn law_reply_items_are_numbered_from_one<R: Fn(isize) -> Option<String>>(
    target: BrowserTarget,
    item_count: isize,
    read_item: R,
    observation: Result<Observation, AppleScriptError>,
)
    requires
        call_ensures(parse_reply::<R>, (target, item_count, &read_item), observation),
    ensures
        observation matches Ok(Observation::SafariSnapshot(snapshot)) ==> {
            &&& item_count == 5
            &&& call_ensures(read_item, (2isize,), Some(snapshot.window_id.id))
            &&& call_ensures(read_item, (3isize,), snapshot.window_title)
            &&& call_ensures(read_item, (4isize,), snapshot.url)
            &&& call_ensures(read_item, (5isize,), snapshot.tab_title)
        },
        observation matches Ok(Observation::ChromeSnapshot(snapshot)) ==> {
            &&& item_count == 6
            &&& call_ensures(read_item, (2isize,), Some(snapshot.window_id.id))
            &&& call_ensures(read_item, (3isize,), snapshot.window_title)
            &&& call_ensures(read_item, (4isize,), Some(snapshot.tab_key))
            &&& call_ensures(read_item, (5isize,), Some(snapshot.url))
            &&& call_ensures(read_item, (6isize,), snapshot.tab_title)
        },
        item_count <= 0 ==> observation is Err,
{
    if item_count >= 1 {
        let items = choose|items: Seq<Option<String>>| #[trigger]
            reply_items(item_count, read_item, items) && observation == answer_of(target, items);
        assert(forall|i: int|
            0 <= i < items.len() ==> call_ensures(
                read_item,
                ((i + 1) as isize,),
                #[trigger] items[i],
            ));
        if let Ok(Observation::SafariSnapshot(snapshot)) = observation {
            assert(items[1] == Some(snapshot.window_id.id));
            assert(items[2] == snapshot.window_title);
            assert(items[3] == snapshot.url);
            assert(items[4] == snapshot.tab_title);
        }
        if let Ok(Observation::ChromeSnapshot(snapshot)) = observation {
            assert(items[1] == Some(snapshot.window_id.id));
            assert(items[2] == snapshot.window_title);
            assert(items[3] == Some(snapshot.tab_key));
            assert(items[4] == Some(snapshot.url));
            assert(items[5] == snapshot.tab_title);
        }
    }
}

/// A script is its template with every marker replaced by what it stands for: text
/// before a marker stays, and so does all text without markers.
pub proof fn law_markers_are_replaced(
    before: Seq<char>,
    after: Seq<char>,
    values: ScriptValues,
)
    requires
        forall|i: int| 0 <= i < before.len() ==> #[trigger] before[i] != '{',
    ensures
        substituted(before, values) == before,
        substituted(before + "{bundle_id}"@ + after, values) == before + values.bundle_id
            + substituted(after, values),
        substituted(before + "{application_path}"@ + after, values) == before
            + values.application_path + substituted(after, values),
        values.window_id matches Some(window_id) ==> substituted(
            before + "{window_id}"@ + after,
            values,
        ) == before + window_id + substituted(after, values),
    decreases before.len(),
{
    reveal_strlit("{bundle_id}");
    reveal_strlit("{application_path}");
    reveal_strlit("{window_id}");
    if before.len() == 0 {
        let bundle = before + "{bundle_id}"@ + after;
        assert(bundle.subrange(0, "{bundle_id}"@.len() as int) =~= "{bundle_id}"@);
        assert(bundle.skip("{bundle_id}"@.len() as int) =~= after);
        assert(begins_with(bundle, "{bundle_id}"@));
        assert(before + values.bundle_id + substituted(after, values) =~= values.bundle_id
            + substituted(after, values));
        let path = before + "{application_path}"@ + after;
        assert(path[1] == 'a');
        assert(path.subrange(0, "{application_path}"@.len() as int) =~= "{application_path}"@);
        assert(path.skip("{application_path}"@.len() as int) =~= after);
        lemma_other_marker(path, "{bundle_id}"@);
        assert(before + values.application_path + substituted(after, values)
            =~= values.application_path + substituted(after, values));
        let window = before + "{window_id}"@ + after;
        assert(window[1] == 'w');
        assert(window.subrange(0, "{window_id}"@.len() as int) =~= "{window_id}"@);
        assert(window.skip("{window_id}"@.len() as int) =~= after);
        lemma_other_marker(window, "{bundle_id}"@);
        lemma_other_marker(window, "{application_path}"@);
        if values.window_id is Some {
            assert(before + values.window_id->0 + substituted(after, values)
                =~= values.window_id->0 + substituted(after, values));
        }
    } else {
        let rest = before.skip(1);
        assert forall|i: int| 0 <= i < rest.len() implies #[trigger] rest[i] != '{' by {
            assert(rest[i] == before[i + 1]);
        }
        law_markers_are_replaced(rest, after, values);
        lemma_plain_start(before, values);
        assert(seq![before[0]] + rest =~= before);
        lemma_plain_start(before + "{bundle_id}"@ + after, values);
        assert((before + "{bundle_id}"@ + after).skip(1) =~= rest + "{bundle_id}"@ + after);
        assert(seq![before[0]] + (rest + values.bundle_id + substituted(after, values)) =~= before
            + values.bundle_id + substituted(after, values));
        lemma_plain_start(before + "{application_path}"@ + after, values);
        assert((before + "{application_path}"@ + after).skip(1) =~= rest + "{application_path}"@
            + after);
        assert(seq![before[0]] + (rest + values.application_path + substituted(after, values))
            =~= before + values.application_path + substituted(after, values));
        lemma_plain_start(before + "{window_id}"@ + after, values);
        assert((before + "{window_id}"@ + after).skip(1) =~= rest + "{window_id}"@ + after);
        if values.window_id is Some {
            assert(seq![before[0]] + (rest + values.window_id->0 + substituted(after, values))
                =~= before + values.window_id->0 + substituted(after, values));
        }
    }
}

proof fn lemma_other_marker(script: Seq<char>, marker: Seq<char>)
    requires
        script.len() >= 2,
        marker.len() >= 2,
        script[1] != marker[1],
    ensures
        !begins_with(script, marker),
{
    if begins_with(script, marker) {
        assert(script.subrange(0, marker.len() as int)[1] == marker[1]);
    }
}

proof fn lemma_plain_start(script: Seq<char>, values: ScriptValues)
    requires
        script.len() > 0,
        script[0] != '{',
    ensures
        substituted(script, values) == seq![script[0]] + substituted(script.skip(1), values),
{
    reveal_strlit("{bundle_id}");
    reveal_strlit("{application_path}");
    reveal_strlit("{window_id}");
    if begins_with(script, "{bundle_id}"@) {
        assert(script.subrange(0, "{bundle_id}"@.len() as int)[0] == '{');
    }
    if begins_with(script, "{application_path}"@) {
        assert(script.subrange(0, "{application_path}"@.len() as int)[0] == '{');
    }
    if begins_with(script, "{window_id}"@) {
        assert(script.subrange(0, "{window_id}"@.len() as int)[0] == '{');
    }
}

/// Each browser is asked under its own identifier, and a missing one is reported as
/// itself; an installed one is asked where it is installed.
pub proof fn law_browsers_are_not_confused(
    target: BrowserTarget,
    path: Option<String>,
    id: &'static str,
    found: Result<String, AppleScriptError>,
)
    requires
        call_ensures(bundle_id, (target,), id),
        call_ensures(application_path, (target, path), found),
    ensures
        target is Chrome ==> id@ == "com.google.Chrome"@,
        target is Safari ==> id@ == "com.apple.Safari"@,
        path is Some <==> found is Ok,
        found matches Ok(installed) ==> path == Some(installed),
        found matches Err(error) ==> (error is ChromeUnavailable <==> target is Chrome) && (
        error is SafariUnavailable <==> target is Safari),
{
}

} // verus!
