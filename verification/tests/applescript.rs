//! Scripts for the browsers and what their answers mean.

use zanei_macos::applescript::{
    application_path, bundle_id, escape_applescript_string, front_window_source, optional_item,
    parse_items, parse_reply, required_item, target_window_source, AppleScriptError,
    AppleScriptResponseError, AppleScriptWindowId, BrowserTarget, Observation, SafariSnapshot,
    Snapshot,
};

fn window(id: &str) -> AppleScriptWindowId {
    AppleScriptWindowId::from_response(id.to_owned())
}

#[test]
fn front_window_source_leaves_frontmost_authority_to_focus_context() {
    let source = front_window_source(BrowserTarget::Chrome, "/Applications/Google Chrome.app");

    assert!(!source.contains("frontmost is false"));
    assert!(source.contains("set current_window to front window"));
}

#[test]
fn sources_bind_chrome_to_its_bundle_id_and_preserve_status_paths() {
    let application_path = "/Applications/Google Chrome.app";
    let window_id = window("window-4321");
    let front = front_window_source(BrowserTarget::Chrome, application_path);
    let target = target_window_source(BrowserTarget::Chrome, application_path, &window_id);

    for source in [&front, &target] {
        assert!(source.contains(
            "if not (running of application id \"com.google.Chrome\") then return {\"not_running\"}"
        ));
        assert!(source.contains("tell application id \"com.google.Chrome\""));
        assert!(!source.contains("path to application id"));
        assert!(!source.contains("application chromeApp"));
        assert!(source.contains("if current_mode is \"incognito\" then return {\"incognito\"}"));
        assert!(source.contains(
            "if current_mode is not \"normal\" then return {\"unsupported_mode\", current_mode}"
        ));
        assert!(source.contains(
            "return {\"snapshot\", (id of current_window) as text, name of current_window, (id of current_tab) as text, URL of current_tab, title of current_tab}"
        ));
    }
    assert!(front.contains("if (count of windows) is 0 then return {\"no_window\"}"));
    assert!(
        target.contains("if not (exists window id \"window-4321\") then return {\"no_window\"}")
    );
}

#[test]
fn safari_source_uses_safari_bundle_and_does_not_claim_privacy_or_tab_identity() {
    let application_path = "/Applications/Safari.app";
    let window_id = window("window-4321");
    let front = front_window_source(BrowserTarget::Safari, application_path);
    let target = target_window_source(BrowserTarget::Safari, application_path, &window_id);

    for source in [&front, &target] {
        assert!(source.contains("application id \"com.apple.Safari\""));
        assert!(source.contains("current tab of current_window"));
        assert!(source.contains(
            "return {\"snapshot\", (id of current_window) as text, name of current_window, URL of current_tab, name of current_tab}"
        ));
        assert!(!source.contains("mode of current_window"));
        assert!(!source.contains("id of current_tab"));
    }
    assert!(target.contains("set current_window to window id \"window-4321\""));
}

#[test]
fn targeted_source_escapes_opaque_window_identity_as_one_string_literal() {
    let window_id = window("window-\\\" & return {\"private\"} & \"");

    let source = target_window_source(
        BrowserTarget::Chrome,
        "/Applications/Google Chrome.app",
        &window_id,
    );

    let escaped = "window-\\\\\\\" & return {\\\"private\\\"} & \\\"";
    assert_eq!(source.matches(escaped).count(), 2);
    assert!(!source.contains("window id \"window-\" & return"));
}

#[test]
fn targeted_source_does_not_reinterpret_markers_in_values() {
    let application_path = "/Applications/{window_id}/Google Chrome.app";
    let window_id = window("window-{application_path}");

    let source = target_window_source(BrowserTarget::Chrome, application_path, &window_id);

    assert_eq!(source.matches(application_path).count(), 1);
    assert_eq!(source.matches(window_id.as_str()).count(), 2);
}

#[test]
fn decode_distinguishes_chrome_contract_from_safari_unknowns() {
    let chrome = parse_items(
        BrowserTarget::Chrome,
        vec![
            Some("snapshot".into()),
            Some("chrome-window".into()),
            None,
            Some("tab-1".into()),
            Some("https://example.com".into()),
            None,
        ],
    )
    .expect("Chrome snapshot");
    assert!(
        matches!(chrome, Observation::ChromeSnapshot(Snapshot { ref tab_key, .. }) if tab_key == "tab-1")
    );

    let safari = parse_items(
        BrowserTarget::Safari,
        vec![
            Some("snapshot".into()),
            Some("safari-window".into()),
            None,
            None,
            None,
        ],
    )
    .expect("Safari snapshot");
    assert_eq!(
        safari,
        Observation::SafariSnapshot(SafariSnapshot {
            window_id: window("safari-window"),
            window_title: None,
            url: None,
            tab_title: None,
        })
    );
}

#[test]
fn decode_keeps_no_window_private_and_malformed_distinct() {
    assert_eq!(
        parse_items(BrowserTarget::Safari, vec![Some("no_window".into())]).unwrap(),
        Observation::NoWindow
    );
    assert_eq!(
        parse_items(BrowserTarget::Chrome, vec![Some("incognito".into())]).unwrap(),
        Observation::Incognito
    );
    assert!(matches!(
        parse_items(
            BrowserTarget::Chrome,
            vec![Some("snapshot".into()), Some("w".into())]
        ),
        Err(AppleScriptError::InvalidResponse(
            AppleScriptResponseError::SnapshotLength
        ))
    ));
    assert!(matches!(
        parse_items(
            BrowserTarget::Chrome,
            vec![Some("unsupported_mode".into()), Some("x".into())]
        ),
        Err(AppleScriptError::UnsupportedMode)
    ));
}

#[test]
fn chrome_requires_url_and_tab_but_safari_allows_missing_url() {
    assert!(matches!(
        parse_items(
            BrowserTarget::Chrome,
            vec![
                Some("snapshot".into()),
                Some("window".into()),
                None,
                Some("tab".into()),
                None,
                None,
            ],
        ),
        Err(AppleScriptError::InvalidResponse(
            AppleScriptResponseError::RequiredItemNotText
        ))
    ));
    let result = parse_items(
        BrowserTarget::Safari,
        vec![
            Some("snapshot".into()),
            Some("window".into()),
            None,
            None,
            Some("title".into()),
        ],
    )
    .expect("Safari URL may be absent");
    assert!(matches!(
        result,
        Observation::SafariSnapshot(SafariSnapshot { url: None, .. })
    ));
}

#[test]
fn safari_does_not_decode_chrome_private_status() {
    assert!(matches!(
        parse_items(BrowserTarget::Safari, vec![Some("incognito".into())]),
        Err(AppleScriptError::InvalidResponse(
            AppleScriptResponseError::UnknownStatus
        ))
    ));
}

#[test]
fn escaping_keeps_other_characters() {
    assert_eq!(escape_applescript_string("plain \u{65e5}\u{672c}"), "plain \u{65e5}\u{672c}");
    assert_eq!(escape_applescript_string("a\\b\"c"), "a\\\\b\\\"c");
    assert_eq!(escape_applescript_string(""), "");
}

#[test]
fn browsers_have_their_bundle_identifiers() {
    assert_eq!(bundle_id(BrowserTarget::Chrome), "com.google.Chrome");
    assert_eq!(bundle_id(BrowserTarget::Safari), "com.apple.Safari");
}

#[test]
fn missing_application_names_the_browser() {
    assert_eq!(
        application_path(BrowserTarget::Chrome, None),
        Err(AppleScriptError::ChromeUnavailable)
    );
    assert_eq!(
        application_path(BrowserTarget::Safari, None),
        Err(AppleScriptError::SafariUnavailable)
    );
    assert_eq!(
        application_path(BrowserTarget::Safari, Some("/Applications/Safari.app".to_owned())),
        Ok("/Applications/Safari.app".to_owned())
    );
}

#[test]
fn replies_are_read_from_the_first_item_on() {
    let items = ["snapshot", "w", "", "t", "https://example.com", "title"];
    let read = |index: isize| Some(items[index as usize - 1].to_owned());
    let observation = parse_reply(BrowserTarget::Chrome, 6, &read).expect("snapshot");
    assert!(matches!(
        observation,
        Observation::ChromeSnapshot(Snapshot { ref url, .. }) if url == "https://example.com"
    ));
    let unread = |_: isize| -> Option<String> { panic!("an empty reply has no items") };
    assert_eq!(
        parse_reply(BrowserTarget::Chrome, 0, &unread),
        Err(AppleScriptError::InvalidResponse(AppleScriptResponseError::EmptyDescriptorList))
    );
}

#[test]
fn status_answers_have_one_item() {
    assert_eq!(
        parse_items(BrowserTarget::Chrome, vec![Some("not_running".into())]),
        Ok(Observation::NotRunning)
    );
    assert_eq!(
        parse_items(BrowserTarget::Chrome, vec![Some("no_window".into()), None]),
        Err(AppleScriptError::InvalidResponse(AppleScriptResponseError::StatusLength))
    );
    assert_eq!(
        parse_items(BrowserTarget::Chrome, vec![Some("unsupported_mode".into())]),
        Err(AppleScriptError::InvalidResponse(AppleScriptResponseError::UnsupportedModeLength))
    );
    assert_eq!(
        parse_items(BrowserTarget::Chrome, vec![None]),
        Err(AppleScriptError::InvalidResponse(AppleScriptResponseError::RequiredItemNotText))
    );
}

#[test]
fn items_may_be_missing_or_required() {
    let items = vec![Some("a".to_owned()), None];
    assert_eq!(required_item(&items, 0), Ok("a".to_owned()));
    assert!(required_item(&items, 1).is_err());
    assert_eq!(optional_item(&items, 0), Some("a".to_owned()));
    assert_eq!(optional_item(&items, 2), None);
}

#[test]
fn script_errors_name_their_code() {
    assert_eq!(
        AppleScriptError::Compile { code: Some(-2_741) }.message(),
        "AppleScript compilation failed (code Some(-2741))"
    );
    assert_eq!(
        AppleScriptError::Execute { code: None }.message(),
        "AppleScript execution failed (code None)"
    );
    assert_eq!(
        AppleScriptError::ClassUnavailable("NSAppleScript").message(),
        "Objective-C class NSAppleScript is unavailable"
    );
    assert_eq!(
        AppleScriptError::Allocation("NSString").message(),
        "failed to allocate NSString"
    );
    assert_eq!(AppleScriptError::ChromeUnavailable.message(), "Google Chrome is not installed");
    assert_eq!(AppleScriptError::SafariUnavailable.message(), "Safari is not installed");
    assert_eq!(
        AppleScriptError::UnsupportedMode.message(),
        "Chrome returned an unsupported window mode"
    );
    for (error, reason) in [
        (AppleScriptResponseError::EmptyDescriptorList, "empty descriptor list"),
        (
            AppleScriptResponseError::UnsupportedModeLength,
            "unsupported-mode response has the wrong length",
        ),
        (AppleScriptResponseError::UnknownStatus, "unknown response status"),
        (AppleScriptResponseError::StatusLength, "status response has the wrong length"),
        (AppleScriptResponseError::SnapshotLength, "snapshot response has the wrong length"),
        (AppleScriptResponseError::RequiredItemNotText, "required descriptor item is not text"),
        (AppleScriptResponseError::StringContainsNul, "string contains a NUL byte"),
    ] {
        assert_eq!(
            AppleScriptError::InvalidResponse(error).message(),
            format!("AppleScript returned an invalid Chrome response: {reason}")
        );
    }
}

#[test]
fn escaped_values_read_back() {
    for value in ["", "plain", "a\\b\"c", "\\\\\"\"", "\u{65e5}\\"] {
        let mut read = String::new();
        let literal = escape_applescript_string(value);
        let mut chars = literal.chars();
        while let Some(c) = chars.next() {
            assert_ne!(c, '"');
            read.push(if c == '\\' { chars.next().expect("escaped character") } else { c });
        }
        assert_eq!(read, value);
    }
}
