//! Which applications and pages text may be read from.

use zanei_macos::focused_field::{FieldClass, FocusedField};
use zanei_macos::schema::{App, CaptureContext, FieldKind};
use zanei_macos::text_capture::policy::{
    BrowserState, CapturePolicy, TextContentDecision, TextContentPolicy, CHROME_BUNDLE_ID,
};

fn app(name: &str, bundle_id: &str, pid: i64) -> App {
    App { name: name.to_owned(), bundle_id: Some(bundle_id.to_owned()), pid: Some(pid) }
}

fn known_text_field() -> FocusedField {
    FocusedField { generation: 1, class: FieldClass::KnownText(FieldKind::Text) }
}

fn unknown_page() -> BrowserState {
    BrowserState { capture_context: CaptureContext::default(), allows_text: false, version: None }
}

fn page(host: &str, allows_text: bool, version: u64) -> BrowserState {
    BrowserState {
        capture_context: CaptureContext {
            website_host: Some(host.to_owned()),
            url: Some(format!("https://{host}")),
        },
        allows_text,
        version: Some(version),
    }
}

/// What a filter that excludes these applications answers.
fn answer(excluded: &[&str], app: &App) -> Option<bool> {
    Some(!excluded.iter().any(|bundle_id| app.bundle_id.as_deref() == Some(bundle_id)))
}

#[test]
fn global_and_text_app_scopes_are_both_required() {
    let excluded = ["dev.example.GlobalDenied", "dev.example.TextDenied"];
    let allowed = |app: App| {
        TextContentPolicy::new(answer(&excluded, &app), unknown_page())
            .decision(&app, Some(11))
            .is_allowed()
    };
    assert!(allowed(app("Allowed", "dev.example.Allowed", 7)));
    assert!(!allowed(app("Global", "dev.example.GlobalDenied", 7)));
    assert!(!allowed(app("Text", "dev.example.TextDenied", 7)));
}

#[test]
fn chrome_requires_a_normal_allowed_host_and_preserves_context() {
    let chrome_app = app("Google Chrome", CHROME_BUNDLE_ID, 7);
    let unseen = TextContentPolicy::new(Some(true), unknown_page());
    assert!(!unseen.decision(&chrome_app, Some(11)).is_allowed());
    let incognito = BrowserState { version: Some(1), ..unknown_page() };
    let private = TextContentPolicy::new(Some(true), incognito);
    assert!(!private.decision(&chrome_app, Some(11)).is_allowed());

    let normal = TextContentPolicy::new(Some(true), page("example.com", true, 2));
    let decision = normal.decision(&chrome_app, Some(11));
    assert!(decision.is_allowed());
    assert_eq!(decision.capture_context().website_host.as_deref(), Some("example.com"));
    assert_eq!(decision.chrome_version(), Some(2));
}

#[test]
fn chrome_combines_global_and_text_website_scopes() {
    let chrome_app = app("Google Chrome", CHROME_BUNDLE_ID, 7);
    let excluded = ["global.example", "text.example"];
    let allowed = |host: &str| {
        TextContentPolicy::new(Some(true), page(host, !excluded.contains(&host), 1))
            .decision(&chrome_app, Some(11))
            .is_allowed()
    };
    assert!(allowed("allowed.example"));
    assert!(!allowed("global.example"));
    assert!(!allowed("text.example"));
}

#[test]
fn input_requires_a_tracked_known_text_field() {
    let policy = TextContentPolicy::new(Some(true), unknown_page());
    let app = app("Example", "dev.example.App", 7);

    assert!(policy.input_decision(&app, Some(11), Some(known_text_field())).is_allowed());
    assert!(!policy.input_decision(&app, Some(11), None).is_allowed());
    let unknown = FocusedField { generation: 1, class: FieldClass::Unknown };
    assert!(!policy.input_decision(&app, Some(11), Some(unknown)).is_allowed());
}

#[test]
fn replacement_updates_the_app_decision_without_recreating_the_policy() {
    let app = app("Example", "dev.example.App", 7);
    let mut policy = TextContentPolicy::new(answer(&[], &app), unknown_page());
    assert!(policy.decision(&app, Some(11)).is_allowed());

    policy.replace_filter(answer(&["dev.example.App"], &app));

    assert!(!policy.decision(&app, Some(11)).is_allowed());
}

#[test]
fn chrome_without_a_process_or_window_has_no_page() {
    let policy = TextContentPolicy::new(Some(true), page("example.com", true, 4));
    let unnamed = App { pid: None, ..app("Google Chrome", CHROME_BUNDLE_ID, 7) };
    let decision = policy.decision(&unnamed, Some(11));
    assert!(!decision.is_allowed());
    assert_eq!(decision.capture_context(), CaptureContext::default());
    let windowless = policy.decision(&app("Google Chrome", CHROME_BUNDLE_ID, 7), None);
    assert!(windowless.is_allowed());
    assert_eq!(windowless.chrome_version(), None);
}

#[test]
fn unreadable_filter_denies() {
    let policy = TextContentPolicy::new(None, page("example.com", true, 4));
    assert!(!policy.decision(&app("Example", "dev.example.App", 7), Some(11)).is_allowed());
}

#[test]
fn denial_is_not_lifted_at_send_time() {
    let decision = |allowed: bool, chrome_version: Option<u64>| TextContentDecision {
        allowed,
        capture_context: CaptureContext::default(),
        chrome_version,
    };
    assert!(decision(true, None).at_send(None).is_allowed());
    assert!(decision(true, None).at_send(Some(&decision(true, None))).is_allowed());
    assert!(!decision(true, None).at_send(Some(&decision(false, None))).is_allowed());
    assert!(!decision(false, None).at_send(Some(&decision(true, None))).is_allowed());
    assert!(!decision(true, Some(3)).at_send(Some(&decision(true, None))).is_allowed());
    let sent = decision(true, Some(3)).at_send(Some(&decision(true, Some(2))));
    assert!(sent.is_allowed());
    assert_eq!(sent.chrome_version(), Some(2));
}

#[test]
fn answers_are_kept_apart() {
    let mut policy = TextContentPolicy::new(Some(true), unknown_page());
    let allowed = app("Allowed", "dev.example.Allowed", 7);
    let denied = app("Denied", "dev.example.Denied", 8);
    let chrome_app = app("Google Chrome", CHROME_BUNDLE_ID, 9);
    policy.answer_app(denied.clone(), false);
    policy.answer_window(9, Some(11), page("example.com", true, 2));
    policy.answer_window(9, Some(12), page("private.example", false, 3));

    assert!(policy.decision(&allowed, Some(11)).is_allowed());
    assert!(!policy.decision(&denied, Some(11)).is_allowed());
    assert!(policy.decision(&chrome_app, Some(11)).is_allowed());
    assert!(!policy.decision(&chrome_app, Some(12)).is_allowed());
    assert_eq!(policy.decision(&chrome_app, Some(12)).chrome_version(), Some(3));
    assert!(!policy.decision(&chrome_app, Some(13)).is_allowed());

    policy.answer_app(denied.clone(), true);
    policy.answer_window(9, Some(11), page("example.com", true, 4));
    assert!(policy.decision(&denied, Some(11)).is_allowed());
    assert_eq!(policy.decision(&chrome_app, Some(11)).chrome_version(), Some(4));

    policy.replace_filter(Some(false));
    assert!(!policy.decision(&denied, Some(11)).is_allowed());
    assert_eq!(policy.decision(&chrome_app, Some(11)).chrome_version(), Some(4));
}

fn confirmed(version: u64) -> TextContentDecision {
    let page = page("example.com", true, version);
    TextContentDecision {
        allowed: true,
        capture_context: page.capture_context,
        chrome_version: page.version,
    }
}

#[test]
fn surfaces_are_answered_by_their_title() {
    let editor = app("Editor", "dev.example.Editor", 7);
    let denied = TextContentDecision { allowed: false, ..confirmed(1) };
    let mut policy = CapturePolicy::new(TextContentPolicy::new(Some(true), unknown_page()));
    policy.answer_surface(editor.clone(), Some(11), Some(".env".to_owned()), denied.clone());

    assert_eq!(policy.decision(&editor, Some(11), Some(".env")), denied);
    assert!(policy.decision(&editor, Some(11), Some("main.rs")).is_allowed());
    assert!(policy.decision(&editor, Some(11), None).is_allowed());
    assert!(policy.decision(&editor, Some(12), Some(".env")).is_allowed());
    let other = App { pid: Some(8), ..editor.clone() };
    assert!(policy.decision(&other, Some(11), Some(".env")).is_allowed());

    policy.answer_surface(editor.clone(), Some(11), Some(".env".to_owned()), confirmed(2));
    assert_eq!(policy.decision(&editor, Some(11), Some(".env")), confirmed(2));

    policy.replace_filter(Some(false));
    assert!(!policy.decision(&editor, Some(11), Some(".env")).is_allowed());
    assert_eq!(policy.decision(&editor, Some(11), Some(".env")).chrome_version(), None);
}

#[test]
fn any_browser_can_be_answered_with_a_version() {
    let safari = app("Safari", "com.apple.Safari", 7);
    let mut policy = CapturePolicy::new(TextContentPolicy::new(Some(true), unknown_page()));
    let generic = policy.decision(&safari, Some(11), None);
    assert!(generic.is_allowed());
    assert_eq!(generic.chrome_version(), None);

    policy.answer_surface(safari.clone(), Some(11), None, confirmed(5));
    assert_eq!(policy.decision(&safari, Some(11), None).chrome_version(), Some(5));
    let typed = policy.input_decision(&safari, Some(11), Some(known_text_field()));
    assert_eq!((typed.is_allowed(), typed.chrome_version()), (true, Some(5)));
    assert!(!policy.input_decision(&safari, Some(11), None).is_allowed());
}
