//! The main run loop, the application directory, queues and clocks.

use zanei_macos::app_directory::{
    application_path_for_bundle_id, dictionary_string, ensure_workspace_available,
    parse_info_plist, ApplicationLookup, NativeAppDirectoryError, PropertyList, PropertyValue,
    APPLICATION_NOT_FOUND_ERROR_CODE,
};
use zanei_macos::channel::{count_up, join_counts, BoundedChannel, TrySendError};
use zanei_macos::clock::Instant;
use zanei_macos::main_run_loop::{MainRunLoop, MainRunLoopStopper};
use zanei_macos::text::{
    char_count, chars_of, contains_ascii_lowercased, format_decimal, format_padded_hex, spells,
    trimmed_lowercase,
};

#[test]
fn main_loop_runs_until_it_is_stopped_once() {
    let mut run_loop = MainRunLoop::new(Some(1), Some(1), || true).expect("on the main loop");
    let stopper = MainRunLoopStopper {};
    assert!(run_loop.runs());
    assert!(stopper.stop(&mut run_loop));
    assert!(!stopper.stop(&mut run_loop));
    assert!(!run_loop.runs());
}

#[test]
fn main_loop_is_installed_on_the_main_loop_only() {
    let unasked = || -> bool { panic!("no source is made elsewhere") };
    assert!(MainRunLoop::new(Some(1), Some(2), unasked).is_err());
    assert!(MainRunLoop::new(None, None, unasked).is_err());
    let error = MainRunLoop::new(Some(1), Some(1), || false).expect_err("no source");
    assert_eq!(error.message(), "failed to install the process main CFRunLoop source");
}

fn text(value: &str) -> PropertyValue {
    PropertyValue::Text(value.to_owned())
}

#[test]
fn property_lists_name_an_application() {
    let metadata = parse_info_plist(PropertyList::Entries {
        bundle_id: text("dev.example.App"),
        display_name: PropertyValue::Missing,
        bundle_name: text("Example"),
    })
    .expect("metadata");
    assert_eq!(metadata.bundle_id.as_deref(), Some("dev.example.App"));
    assert_eq!(metadata.display_name, None);
    assert_eq!(metadata.bundle_name.as_deref(), Some("Example"));
}

#[test]
fn malformed_property_lists_are_refused() {
    let reason = |list: PropertyList| match parse_info_plist(list) {
        Ok(_) => panic!("malformed"),
        Err(error) => error.message().to_owned(),
    };
    assert_eq!(reason(PropertyList::Unreadable(None)), "failed to parse property list");
    assert_eq!(reason(PropertyList::Unreadable(Some("why".to_owned()))), "why");
    assert_eq!(reason(PropertyList::NotADictionary), "Info.plist root is not a dictionary");
    assert_eq!(
        reason(PropertyList::Entries {
            bundle_id: text("dev.example.App"),
            display_name: PropertyValue::Other,
            bundle_name: PropertyValue::Other,
        }),
        "CFBundleDisplayName is not a string"
    );
    assert!(dictionary_string("CFBundleName", PropertyValue::Other).is_err());
}

#[test]
fn workspace_has_to_be_available() {
    assert!(ensure_workspace_available(true, true, true).is_ok());
    let reason = |class: bool, shared: bool| {
        ensure_workspace_available(class, shared, false).expect_err("missing").message().to_owned()
    };
    assert_eq!(reason(false, true), "NSWorkspace class is unavailable");
    assert_eq!(reason(true, false), "NSWorkspace shared instance is unavailable");
    assert_eq!(reason(true, true), "NSWorkspace running applications are unavailable");
}

#[test]
fn applications_are_looked_up() {
    let path = |lookup: ApplicationLookup| {
        application_path_for_bundle_id(lookup).map_err(|error| error.message().to_owned())
    };
    assert_eq!(
        path(ApplicationLookup::Path(Ok("/Applications/A.app".to_owned()))),
        Ok(Some("/Applications/A.app".to_owned()))
    );
    assert_eq!(path(ApplicationLookup::Empty), Ok(None));
    let missing = ApplicationLookup::Failed {
        code: APPLICATION_NOT_FOUND_ERROR_CODE,
        description: Some("not found".to_owned()),
    };
    assert_eq!(path(missing), Ok(None));
    assert_eq!(
        path(ApplicationLookup::Failed { code: -1, description: None }),
        Err("LaunchServices application lookup failed without a description".to_owned())
    );
    assert_eq!(
        path(ApplicationLookup::Failed { code: -1, description: Some("why".to_owned()) }),
        Err("why".to_owned())
    );
    assert_eq!(
        path(ApplicationLookup::Nothing),
        Err("LaunchServices application lookup returned neither URLs nor an error".to_owned())
    );
    assert_eq!(
        path(ApplicationLookup::InvalidUrl),
        Err("LaunchServices returned an invalid application URL".to_owned())
    );
    assert_eq!(
        path(ApplicationLookup::NoPath),
        Err("LaunchServices application URL has no filesystem path".to_owned())
    );
    assert_eq!(
        path(ApplicationLookup::Path(Err(NativeAppDirectoryError::new("not UTF-8")))),
        Err("not UTF-8".to_owned())
    );
}

#[test]
fn queues_refuse_what_exceeds_their_capacity() {
    let mut queue = BoundedChannel::new(2);
    assert_eq!(queue.try_send(1), Ok(()));
    assert_eq!(queue.try_send(2), Ok(()));
    assert_eq!(queue.try_send(3), Err(TrySendError::Full(3)));
    assert_eq!(queue.try_recv(), Some(1));
    assert_eq!(queue.try_send(4), Ok(()));
    assert_eq!(queue.len(), 2);
    assert_eq!(queue.drain().into_iter().collect::<Vec<i32>>(), vec![2, 4]);
    assert_eq!(queue.try_recv(), None);
    queue.disconnect();
    assert_eq!(queue.try_send(5), Err(TrySendError::Disconnected(5)));
}

#[test]
fn counters_start_over() {
    assert_eq!(count_up(41), 42);
    assert_eq!(count_up(u64::MAX), 0);
    assert_eq!(join_counts(40, 2), 42);
    assert_eq!(join_counts(u64::MAX, 3), 2);
}

#[test]
fn clock_readings_do_not_run_backwards() {
    let start = Instant::from_nanos(100);
    let later = start.after(50);
    assert_eq!(later.saturating_nanos_since(start), 50);
    assert_eq!(start.saturating_nanos_since(later), 0);
    assert!(later.has_reached(start, 50));
    assert!(!later.has_reached(start, 51));
    assert_eq!(start.after(u64::MAX), Instant::from_nanos(u64::MAX));
}

#[test]
fn numbers_and_texts_are_rendered() {
    assert_eq!(format_decimal(i64::MIN), "-9223372036854775808");
    assert_eq!(format_decimal(0), "0");
    assert_eq!(format_padded_hex(10), "0a");
    assert_eq!(format_padded_hex(0x1ff), "1ff");
    assert_eq!(chars_of("h\u{e9}"), vec!['h', '\u{e9}']);
    assert!(contains_ascii_lowercased("com.apple.InputMethod.X", "inputmethod"));
    assert!(!contains_ascii_lowercased("com.apple.keylayout", "inputmethod"));
    assert!(spells(&trimmed_lowercase("  MiXed \n"), "mixed"));
    assert!(!spells(&trimmed_lowercase("mixed up"), "mixed"));
    assert_eq!(char_count("h\u{e9}"), 2);
}
