//! Bodies that wait until the browser confirms the page they came from.

use time::OffsetDateTime;
use zanei_macos::clock::{Instant, MILLISECOND, SECOND};
use zanei_macos::permission::SAFARI_BUNDLE_ID;
use zanei_macos::schema::{
    App, CaptureContext, ClickButton, ContentSnapshotData, ContentSnapshotTrigger, Element,
    EventData, FieldKind, InputKeyData, InputKeyKind, RawEvent, UiClickData, UiFocusData, Window,
};
use zanei_macos::text_capture::policy::{
    BrowserState, CapturePolicy, TextContentDecision, TextContentPolicy, CHROME_BUNDLE_ID,
};
use zanei_macos::text_capture::quarantine::{
    ChromeWindowKey, HeldBodyKind, ReleasedEvent, TextQuarantine, CONFIRMATION_SAFETY_CAP,
};
use zanei_macos::text_capture::routing::{
    has_text_body, route_text_body, suppress_text_content, TextBodyRoute,
};

const KEY: ChromeWindowKey = ChromeWindowKey { pid: 7, window_id: 11 };

/// A browser window: its address, how often that changed, and when it was seen.
struct Page {
    url: Option<String>,
    version: u64,
    observed_at: Option<Instant>,
    denied: &'static str,
}

impl Page {
    fn new(denied: &'static str) -> Page {
        Page { url: None, version: 0, observed_at: None, denied }
    }

    fn observe(&mut self, url: Option<&str>, at: Instant) {
        let url = url.map(str::to_owned);
        if self.url != url {
            self.version += 1;
            self.url = url;
        }
        self.observed_at = Some(at);
    }

    fn host(&self) -> Option<String> {
        let url = self.url.as_deref()?;
        let rest = url.strip_prefix("https://")?;
        Some(rest.split('/').next().unwrap_or("").to_owned())
    }

    fn decision(&self) -> TextContentDecision {
        let host = self.host();
        TextContentDecision {
            allowed: host.is_some() && host.as_deref() != Some(self.denied),
            capture_context: CaptureContext { website_host: host, url: self.url.clone() },
            chrome_version: Some(self.version),
        }
    }

    fn release(&self, quarantine: &mut TextQuarantine, now: Instant) -> Vec<ReleasedEvent> {
        quarantine.release(now, |_| self.observed_at, |_, _, _| self.decision())
    }
}

fn setup(before: Instant) -> Page {
    let mut page = Page::new("denied.example");
    page.observe(Some("https://allowed.example"), before);
    page
}

fn start() -> Instant {
    Instant::from_nanos(1_000 * SECOND)
}

fn event(observed_at: OffsetDateTime) -> RawEvent {
    RawEvent {
        observed_at: Some(observed_at),
        source: "macos.eventtap".to_owned(),
        event_type: "input.key".to_owned(),
        app: App {
            name: "Google Chrome".to_owned(),
            bundle_id: Some(CHROME_BUNDLE_ID.to_owned()),
            pid: Some(7),
        },
        window: Some(Window { title: Some("Window".to_owned()), id: Some(11) }),
        element: None,
        data: EventData::InputKey(InputKeyData {
            kind: InputKeyKind::Text,
            modifiers: Vec::new(),
            combo: None,
            text: Some("private".to_owned()),
            field_kind: Some(FieldKind::Text),
            count: 1,
        }),
        capture_context: CaptureContext::default(),
    }
}

fn snapshot_event() -> RawEvent {
    let mut event = event(OffsetDateTime::UNIX_EPOCH);
    event.source = "macos.ax".to_owned();
    event.event_type = "content.snapshot".to_owned();
    event.data = EventData::ContentSnapshot(ContentSnapshotData {
        text: Some("private snapshot".to_owned()),
        char_count: 16,
        trigger: ContentSnapshotTrigger::FocusOut,
    });
    event
}

fn input_text(event: &RawEvent) -> Option<&str> {
    let EventData::InputKey(data) = &event.data else {
        panic!("input.key");
    };
    data.text.as_deref()
}

#[test]
fn allowed_to_excluded_switch_then_input_within_200ms_nulls_text() {
    let before = start();
    let mut page = setup(before);
    let version = page.version;
    let held_at = before.after(10 * MILLISECOND);
    let mut quarantine = TextQuarantine::new();
    quarantine.hold_at(
        event(OffsetDateTime::UNIX_EPOCH),
        KEY,
        version,
        HeldBodyKind::Text,
        held_at,
    );
    page.observe(Some("https://denied.example"), held_at.after(50 * MILLISECOND));

    let released = page.release(&mut quarantine, held_at.after(51 * MILLISECOND));
    assert_eq!(input_text(&released[0].event), None);
}

#[test]
fn post_input_unchanged_observation_keeps_text_and_input_time() {
    let before = start();
    let mut page = setup(before);
    let version = page.version;
    let held_at = before.after(10 * MILLISECOND);
    let observed_at = OffsetDateTime::UNIX_EPOCH;
    let mut quarantine = TextQuarantine::new();
    quarantine.hold_at(event(observed_at), KEY, version, HeldBodyKind::Text, held_at);
    page.observe(Some("https://allowed.example"), held_at.after(50 * MILLISECOND));

    let released = page.release(&mut quarantine, held_at.after(51 * MILLISECOND));
    assert_eq!(input_text(&released[0].event), Some("private"));
    assert_eq!(released[0].event.observed_at, Some(observed_at));
}

#[test]
fn unresponsive_chrome_nulls_after_safety_cap() {
    let before = start();
    let page = setup(before);
    let version = page.version;
    let held_at = before.after(10 * MILLISECOND);
    let mut quarantine = TextQuarantine::new();
    quarantine.hold_at(
        event(OffsetDateTime::UNIX_EPOCH),
        KEY,
        version,
        HeldBodyKind::Text,
        held_at,
    );

    assert!(page.release(&mut quarantine, held_at.after(SECOND)).is_empty());
    let released = page.release(&mut quarantine, held_at.after(CONFIRMATION_SAFETY_CAP));
    assert_eq!(input_text(&released[0].event), None);
    assert!(quarantine.is_empty());
}

#[test]
fn focus_out_snapshot_is_dropped_after_confirming_an_excluded_tab() {
    let before = start();
    let mut page = setup(before);
    let version = page.version;
    let held_at = before.after(10 * MILLISECOND);
    let mut quarantine = TextQuarantine::new();
    quarantine.hold_at(
        snapshot_event(),
        KEY,
        version,
        HeldBodyKind::Snapshot { hash: 1 },
        held_at,
    );
    page.observe(Some("https://denied.example"), held_at.after(50 * MILLISECOND));

    assert!(page.release(&mut quarantine, held_at.after(51 * MILLISECOND)).is_empty());
    assert!(quarantine.is_empty());
}

#[test]
fn unresponsive_chrome_drops_the_snapshot() {
    let before = start();
    let page = setup(before);
    let version = page.version;
    let held_at = before.after(10 * MILLISECOND);
    let mut quarantine = TextQuarantine::new();
    quarantine.hold_at(
        snapshot_event(),
        KEY,
        version,
        HeldBodyKind::Snapshot { hash: 1 },
        held_at,
    );

    assert!(page.release(&mut quarantine, held_at.after(CONFIRMATION_SAFETY_CAP)).is_empty());
    assert!(quarantine.is_empty());
}

#[test]
fn changed_chrome_state_version_drops_the_snapshot() {
    let before = start();
    let mut page = setup(before);
    let version = page.version;
    let held_at = before.after(10 * MILLISECOND);
    let mut quarantine = TextQuarantine::new();
    quarantine.hold_at(
        snapshot_event(),
        KEY,
        version,
        HeldBodyKind::Snapshot { hash: 1 },
        held_at,
    );
    page.observe(Some("https://changed.example"), held_at.after(50 * MILLISECOND));
    assert_ne!(page.version, version);

    assert!(page.release(&mut quarantine, held_at.after(51 * MILLISECOND)).is_empty());
    assert!(quarantine.is_empty());
}

fn safari_event() -> RawEvent {
    let mut event = event(OffsetDateTime::UNIX_EPOCH);
    event.app.name = "Safari".to_owned();
    event.app.bundle_id = Some(SAFARI_BUNDLE_ID.to_owned());
    event
}

/// Holds a body that was typed on one page, and releases it after another look.
fn verify(
    page: &mut Page,
    quarantine: &mut TextQuarantine,
    initial_url: &str,
    confirmation: Option<&str>,
) -> RawEvent {
    let held_at = start();
    page.observe(Some(initial_url), held_at);
    let TextBodyRoute::Quarantine { event, key, version, .. } =
        route_text_body(safari_event(), page.decision(), None)
    else {
        panic!("app-owned Safari body awaits confirmation");
    };
    quarantine.hold_at(event, key, version, HeldBodyKind::Text, held_at);
    page.observe(confirmation, held_at.after(MILLISECOND));
    page.release(quarantine, held_at.after(2 * MILLISECOND))
        .pop()
        .expect("confirmed metadata")
        .into_parts()
        .0
}

#[test]
fn confirmation_releases_only_the_same_version() {
    let mut page = Page::new("");
    let mut quarantine = TextQuarantine::new();

    let same = verify(
        &mut page,
        &mut quarantine,
        "https://same.example/path",
        Some("https://same.example/path"),
    );
    assert_eq!(input_text(&same), Some("private"));
    assert_eq!(same.capture_context.url.as_deref(), Some("https://same.example/path"));

    let changed = verify(
        &mut page,
        &mut quarantine,
        "https://old.example/path",
        Some("https://new.example/path"),
    );
    assert_eq!(input_text(&changed), None);
    assert_eq!(changed.capture_context.url.as_deref(), Some("https://old.example/path"));

    let unavailable = verify(&mut page, &mut quarantine, "https://available.example/path", None);
    assert_eq!(input_text(&unavailable), None);

    page.observe(Some("https://timeout.example/path"), start());
    let TextBodyRoute::Quarantine { event, key, version, .. } =
        route_text_body(safari_event(), page.decision(), None)
    else {
        panic!("app-owned Safari body awaits confirmation");
    };
    let held_at = start().after(SECOND);
    quarantine.hold_at(event, key, version, HeldBodyKind::Text, held_at);
    let timeout = page
        .release(&mut quarantine, held_at.after(CONFIRMATION_SAFETY_CAP))
        .pop()
        .expect("timeout releases metadata")
        .into_parts()
        .0;
    assert_eq!(input_text(&timeout), None);
}

fn ui_bodies() -> [EventData; 2] {
    [
        EventData::UiFocus(UiFocusData { field_kind: Some(FieldKind::Text) }),
        EventData::UiClick(UiClickData { button: ClickButton::Left, click_count: 1 }),
    ]
}

fn app(bundle_id: &str) -> App {
    App { name: "Example".to_owned(), bundle_id: Some(bundle_id.to_owned()), pid: Some(7) }
}

fn ui_event(bundle_id: &str, data: EventData) -> RawEvent {
    RawEvent {
        observed_at: Some(OffsetDateTime::UNIX_EPOCH),
        source: "macos.ax".to_owned(),
        event_type: "ui.test".to_owned(),
        app: app(bundle_id),
        window: Some(Window { title: Some("Window".to_owned()), id: Some(11) }),
        element: Some(Element {
            role: Some("AXStaticText".to_owned()),
            title: None,
            value: Some("private".to_owned()),
        }),
        data,
        capture_context: CaptureContext::default(),
    }
}

fn policy(app_allowed: bool, page: &Page) -> TextContentPolicy {
    let decision = page.decision();
    TextContentPolicy::new(
        Some(app_allowed),
        BrowserState {
            capture_context: decision.capture_context,
            allows_text: decision.allowed,
            version: decision.chrome_version,
        },
    )
}

#[test]
fn v3_1_ui_focus_click_bodies_route_through_suppression() {
    let unseen = Page::new("");
    let denied = policy(false, &unseen);
    for data in ui_bodies() {
        let decision = denied.decision(&app("dev.example.App"), Some(11));
        let TextBodyRoute::Send(event) =
            route_text_body(ui_event("dev.example.App", data), decision, None)
        else {
            panic!("denied UI body must not be quarantined");
        };
        assert_eq!(event.element.and_then(|element| element.value), None);
    }

    let mut page = Page::new("");
    page.observe(Some("https://allowed.example/"), start());
    let chrome = policy(true, &page);
    for data in ui_bodies() {
        let decision = chrome.decision(&app(CHROME_BUNDLE_ID), Some(11));
        assert!(matches!(
            route_text_body(ui_event(CHROME_BUNDLE_ID, data), decision, None),
            TextBodyRoute::Quarantine { .. }
        ));
    }

    let earlier = chrome.decision(&app(CHROME_BUNDLE_ID), Some(11));
    page.observe(Some("https://changed.example/"), start());
    let current = policy(true, &page).decision(&app(CHROME_BUNDLE_ID), Some(11));
    let focus_body = ui_bodies().into_iter().next().expect("ui.focus body");
    let TextBodyRoute::Quarantine { version, .. } =
        route_text_body(ui_event(CHROME_BUNDLE_ID, focus_body), current, Some(&earlier))
    else {
        panic!("allowed Chrome UI body must be quarantined");
    };
    assert_eq!(Some(version), earlier.chrome_version());
}

#[test]
fn safari_routes_generic_or_confirmed_body_without_crossing_modes() {
    let unseen = Page::new("");
    let earlier = policy(true, &unseen).decision(&app(SAFARI_BUNDLE_ID), Some(11));
    let [focus_body, _] = ui_bodies();
    let TextBodyRoute::Send(event) =
        route_text_body(ui_event(SAFARI_BUNDLE_ID, focus_body), earlier.clone(), Some(&earlier))
    else {
        panic!("standalone Safari remains a generic body");
    };
    assert_eq!(event.element.and_then(|element| element.value), Some("private".to_owned()));

    let mut page = Page::new("");
    page.observe(Some("https://allowed.example/path"), start());
    let safari = app(SAFARI_BUNDLE_ID);
    let mut watched = CapturePolicy::new(policy(true, &unseen));
    watched.answer_surface(safari.clone(), Some(11), None, page.decision());
    let current = watched.decision(&safari, Some(11), None);
    assert!(current.is_allowed());
    assert!(current.chrome_version().is_some());
    let [focus_body, _] = ui_bodies();
    let TextBodyRoute::Send(stale) =
        route_text_body(ui_event(SAFARI_BUNDLE_ID, focus_body), current.clone(), Some(&earlier))
    else {
        panic!("generic body cannot acquire a current confirmation version");
    };
    assert_eq!(stale.element.and_then(|element| element.value), None);

    let [focus_body, _] = ui_bodies();
    assert!(matches!(
        route_text_body(ui_event(SAFARI_BUNDLE_ID, focus_body), current.clone(), Some(&current)),
        TextBodyRoute::Quarantine { .. }
    ));
}

#[test]
fn holding_asks_for_a_look_at_the_window() {
    let mut quarantine = TextQuarantine::new();
    assert!(quarantine.take_requests().is_empty());
    quarantine.hold_snapshot(snapshot_event(), KEY, 3, 9, start());
    assert_eq!(quarantine.take_requests(), vec![KEY]);
    assert!(quarantine.take_requests().is_empty());
}

#[test]
fn confirmed_snapshot_leaves_with_its_hash() {
    let before = start();
    let mut page = setup(before);
    let mut quarantine = TextQuarantine::new();
    quarantine.hold_snapshot(snapshot_event(), KEY, page.version, 9, before);
    page.observe(Some("https://allowed.example"), before.after(1));
    let mut released = page.release(&mut quarantine, before.after(2));
    let (_, hash) = released.pop().expect("snapshot").into_parts();
    assert_eq!(hash, Some((KEY, 9)));
}

#[test]
fn flushing_keeps_events_but_no_bodies() {
    let mut quarantine = TextQuarantine::new();
    let observed_at = OffsetDateTime::UNIX_EPOCH;
    quarantine.hold_text(event(observed_at), KEY, 1, observed_at, start());
    quarantine.hold_snapshot(snapshot_event(), KEY, 1, 9, start());
    let released = quarantine.flush();
    assert_eq!(released.len(), 1);
    assert_eq!(input_text(&released[0].event), None);
    assert!(quarantine.is_empty());
}

#[test]
fn suppression_removes_every_body() {
    let suppressed = suppress_text_content(event(OffsetDateTime::UNIX_EPOCH));
    assert!(!has_text_body(&suppressed));
    assert!(has_text_body(&event(OffsetDateTime::UNIX_EPOCH)));
    let [focus_body, _] = ui_bodies();
    let suppressed = suppress_text_content(ui_event(SAFARI_BUNDLE_ID, focus_body));
    assert!(!has_text_body(&suppressed));
}
