//! Clipboard changes and the copy shortcuts that explain them.

use std::cell::Cell;

use time::OffsetDateTime;
use zanei_macos::clock::{Instant, MILLISECOND, SECOND};
use zanei_macos::eventtap::clipboard::{
    paste_data, ClipboardChange, ClipboardObservationTime, ClipboardTracker,
    COPY_CORRELATION_WINDOW,
};
use zanei_macos::eventtap::logic::{PasteboardContent, PasteboardKind};
use zanei_macos::eventtap::native::{NativeApp, NativeContext, NativeInputTarget};
use zanei_macos::eventtap::pasteboard::{PasteboardType, PasteboardTypes};
use zanei_macos::focus_context::FocusSnapshot;
use zanei_macos::schema::{App, CaptureContext, ClipboardOrigin, ContentKind, EventData};
use zanei_macos::text_capture::policy::{
    BrowserState, CapturePolicy, TextContentDecision, TextContentPolicy,
};
use zanei_macos::window_list::NativeWindow;
use zanei_macos::workspace::{ApplicationActivationPolicy, ApplicationInfo};

fn context(pid: i64) -> NativeContext {
    NativeContext {
        app: NativeApp {
            name: "Example".to_owned(),
            bundle_id: Some("dev.example.App".to_owned()),
            pid,
        },
        window: Some(NativeWindow { title: Some("Window".to_owned()), id: Some(11) }),
    }
}

fn target(context: &NativeContext) -> NativeInputTarget {
    NativeInputTarget {
        context: context.clone(),
        focused_field: None,
        focus_generation: 1,
        field_generation: 2,
    }
}

fn focus(context: &NativeContext) -> FocusSnapshot {
    FocusSnapshot {
        app: ApplicationInfo {
            name: context.app.name.clone(),
            bundle_id: context.app.bundle_id.clone(),
            pid: context.app.pid,
            activation_policy: ApplicationActivationPolicy::Regular,
        },
        window: context.window.clone(),
        generation: 1,
        field_generation: 2,
        focused_field: None,
    }
}

fn text_content(include_content: bool) -> PasteboardContent {
    PasteboardContent {
        kind: PasteboardKind::Text,
        size_bytes: include_content.then_some(7),
        text: if include_content { Some("private".to_owned()) } else { None },
    }
}

fn start() -> Instant {
    Instant::from_nanos(1_000 * SECOND)
}

fn observed(monotonic: Instant) -> ClipboardObservationTime {
    ClipboardObservationTime { monotonic, wall: OffsetDateTime::UNIX_EPOCH }
}

fn policy() -> CapturePolicy {
    CapturePolicy::new(TextContentPolicy::new(
        Some(true),
        BrowserState {
            capture_context: CaptureContext::default(),
            allows_text: false,
            version: None,
        },
    ))
}

fn raw_app(context: &NativeContext) -> App {
    App {
        name: context.app.name.clone(),
        bundle_id: context.app.bundle_id.clone(),
        pid: Some(context.app.pid),
    }
}

fn decision(policy: &CapturePolicy, context: &NativeContext) -> TextContentDecision {
    policy.decision(
        &raw_app(context),
        context.window.as_ref().and_then(|window| window.id),
        context.window.as_ref().and_then(|window| window.title.as_deref()),
    )
}

#[test]
fn pasteboard_change_without_copy_intent_has_unknown_origin_and_no_body() {
    let mut tracker = ClipboardTracker::new(1);
    let output = tracker
        .copy_event(
            2,
            &Some(focus(&context(7))),
            observed(start()),
            text_content,
            false,
            &policy(),
        )
        .expect("unknown copy event remains");
    let event = output.event;

    assert_eq!(event.app.name, "Unknown");
    assert_eq!(event.app.pid, None);
    assert_eq!(event.window, None);
    let EventData::ClipboardCopy(data) = event.data else {
        panic!("expected clipboard.copy");
    };
    assert_eq!(data.origin, ClipboardOrigin::Unknown);
    assert_eq!(data.content_kind, ContentKind::Text);
    assert_eq!(data.size_bytes, None);
    assert_eq!(data.text, None);
}

#[test]
fn copy_intent_requires_same_pid_and_short_window() {
    let now = start();
    let mut tracker = ClipboardTracker::new(1);
    let policy = policy();
    let source = context(7);
    tracker.observe_copy(&target(&source), observed(now), true, decision(&policy, &source));
    assert!(matches!(
        tracker.take_change(2, &Some(focus(&context(8))), now),
        Some(ClipboardChange::Unknown)
    ));

    tracker.observe_copy(&target(&source), observed(now), true, decision(&policy, &source));
    assert!(matches!(
        tracker.take_change(
            3,
            &Some(focus(&context(7))),
            now.after(COPY_CORRELATION_WINDOW + MILLISECOND),
        ),
        Some(ClipboardChange::Unknown)
    ));

    tracker.observe_copy(&target(&source), observed(now), true, decision(&policy, &source));
    assert!(matches!(
        tracker.take_change(4, &Some(focus(&context(7))), now.after(COPY_CORRELATION_WINDOW)),
        Some(ClipboardChange::Matched(_))
    ));
}

#[test]
fn non_chrome_policy_is_available_to_copy_path() {
    assert!(decision(&policy(), &context(7)).is_allowed());
}

#[test]
fn secure_input_suppresses_matched_copy_body() {
    let policy = policy();
    let now = start();
    let app = context(7);
    let mut tracker = ClipboardTracker::new(1);
    tracker.observe_copy(&target(&app), observed(now), true, decision(&policy, &app));
    let event = tracker
        .copy_event(2, &Some(focus(&app)), observed(now), text_content, true, &policy)
        .expect("copy event")
        .event;

    let EventData::ClipboardCopy(data) = event.data else {
        panic!("expected clipboard.copy");
    };
    assert_eq!(data.origin, ClipboardOrigin::CopyShortcut);
    assert_eq!(data.size_bytes, None);
    assert_eq!(data.text, None);
}

#[test]
fn missing_ax_tracking_suppresses_paste_body() {
    let app = App {
        name: "Example".to_owned(),
        bundle_id: Some("dev.example.App".to_owned()),
        pid: Some(7),
    };
    let text_allowed = policy().input_decision(&app, Some(11), None).is_allowed();

    let data = paste_data(text_content, text_allowed, None);

    assert_eq!(data.content_kind, ContentKind::Text);
    assert_eq!(data.size_bytes, None);
    assert_eq!(data.text, None);
    assert_eq!(data.field_kind, None);
}

#[test]
fn delayed_copy_revalidates_policy_surface_and_generations_before_body_read() {
    for change in [
        "unchanged",
        "policy",
        "env_title",
        "window_id",
        "focus_generation",
        "field_generation",
        "missing_title",
        "other_title",
        "pid",
        "secure_input",
    ] {
        let mut source = context(7);
        source.app.name = "Cursor".to_owned();
        source.window.as_mut().expect("window").title = Some("main.rs".to_owned());
        let mut policy = policy();
        let now = start();
        let mut tracker = ClipboardTracker::new(1);
        tracker.observe_copy(&target(&source), observed(now), true, decision(&policy, &source));
        let mut current = focus(&source);
        match change {
            "policy" => policy.replace_filter(Some(false)),
            "env_title" => {
                current.window.as_mut().expect("window").title = Some(".env".to_owned())
            }
            "window_id" => current.window.as_mut().expect("window").id = Some(12),
            "focus_generation" => current.generation += 1,
            "field_generation" => current.field_generation += 1,
            "missing_title" => current.window.as_mut().expect("window").title = None,
            "other_title" => {
                current.window.as_mut().expect("window").title = Some("other.rs".to_owned())
            }
            "pid" => current.app.pid += 1,
            _ => {}
        }
        let body_reads = Cell::new(0);
        let output = tracker
            .copy_event(
                2,
                &Some(current),
                observed(now),
                |include_content| {
                    if include_content {
                        body_reads.set(body_reads.get() + 1);
                    }
                    text_content(include_content)
                },
                change == "secure_input",
                &policy,
            )
            .expect("copy metadata");
        assert_eq!(body_reads.get(), usize::from(change == "unchanged"), "change {change}");
        let EventData::ClipboardCopy(data) = output.event.data else {
            panic!("clipboard copy");
        };
        assert_eq!(data.text.as_deref(), (change == "unchanged").then_some("private"));
        if change == "unchanged" {
            assert_eq!(
                output.event.window.expect("window").title.as_deref(),
                Some("main.rs")
            );
        }
    }
}

#[test]
fn copy_intent_explains_one_change_only() {
    let policy = policy();
    let now = start();
    let app = context(7);
    let mut tracker = ClipboardTracker::new(1);
    assert!(!tracker.has_changed(1));
    assert!(tracker.take_change(1, &Some(focus(&app)), now).is_none());
    tracker.observe_copy(&target(&app), observed(now), true, decision(&policy, &app));
    assert!(matches!(
        tracker.take_change(2, &Some(focus(&app)), now),
        Some(ClipboardChange::Matched(_))
    ));
    assert!(matches!(
        tracker.take_change(3, &Some(focus(&app)), now),
        Some(ClipboardChange::Unknown)
    ));
}

#[test]
fn paste_body_is_read_where_text_is_allowed() {
    let data = paste_data(text_content, true, None);
    assert_eq!(data.size_bytes, Some(7));
    assert_eq!(data.text.as_deref(), Some("private"));
}

#[test]
fn files_come_before_images_and_images_before_text() {
    let types = PasteboardTypes { file_url: true, png: true, tiff: true, string: true };
    assert_eq!(types.preferred(), Some(PasteboardType::FileUrl));
    assert_eq!(types.kind(), PasteboardKind::File);
    let image = PasteboardTypes { file_url: false, ..types };
    assert_eq!(image.preferred(), Some(PasteboardType::Png));
    let tiff = PasteboardTypes { png: false, ..image };
    assert_eq!(tiff.kind(), PasteboardKind::Image);
    let text = PasteboardTypes { tiff: false, ..tiff };
    assert_eq!(text.kind(), PasteboardKind::Text);
    let other = PasteboardTypes { string: false, ..text };
    assert_eq!(other.kind(), PasteboardKind::Other);
}

#[test]
fn clipboard_body_is_read_on_request_only() {
    let text = PasteboardTypes { file_url: false, png: false, tiff: false, string: true };
    let unread = text.content(
        false,
        || panic!("text was not asked for"),
        |_| panic!("data was not asked for"),
    );
    assert_eq!((unread.size_bytes, unread.text), (None, None));
    let read = text.content(
        true,
        || Some("h\u{e9}".to_owned()),
        |_| panic!("text has no data length"),
    );
    assert_eq!(read.size_bytes, Some(3));
    assert_eq!(read.text.as_deref(), Some("h\u{e9}"));
    let image = PasteboardTypes { png: true, ..text };
    let sized = image.content(
        true,
        || panic!("an image has no text"),
        |kind| if kind == PasteboardType::Png { Some(12) } else { None },
    );
    assert_eq!((sized.size_bytes, sized.text), (Some(12), None));
}

#[test]
fn title_decides_whether_a_copied_body_is_read() {
    for (title, text) in [("main.rs", Some("private")), (".env", None)] {
        let mut source = context(7);
        source.window.as_mut().expect("window").title = Some(title.to_owned());
        let mut policy = policy();
        policy.answer_surface(
            raw_app(&source),
            source.window.as_ref().and_then(|window| window.id),
            Some(".env".to_owned()),
            TextContentDecision {
                allowed: false,
                capture_context: CaptureContext::default(),
                chrome_version: None,
            },
        );
        let mut tracker = ClipboardTracker::new(1);
        let allowed = TextContentDecision {
            allowed: true,
            capture_context: CaptureContext::default(),
            chrome_version: None,
        };
        tracker.observe_copy(&target(&source), observed(start()), true, allowed);
        let output = tracker
            .copy_event(
                2,
                &Some(focus(&source)),
                observed(start()),
                |include_content| {
                    assert_eq!(include_content, text.is_some());
                    text_content(include_content)
                },
                false,
                &policy,
            )
            .expect("copy metadata");
        let EventData::ClipboardCopy(data) = output.event.data else {
            panic!("clipboard copy");
        };
        assert_eq!(data.text.as_deref(), text);
    }
}
