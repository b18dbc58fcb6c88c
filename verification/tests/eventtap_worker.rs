//! What the worker makes of native events.

use time::OffsetDateTime;
use zanei_macos::channel::BoundedChannel;
use zanei_macos::clock::{Instant, SECOND};
use zanei_macos::eventtap::clipboard::{ClipboardObservationTime, ClipboardTracker};
use zanei_macos::eventtap::logic::{
    clipboard_paste, key_data, KeyModifiers, KeyObservation, PasteboardContent, PasteboardKind,
    KEYCODE_C, KEYCODE_V,
};
use zanei_macos::eventtap::mode::EventTapMode;
use zanei_macos::eventtap::native::{
    decode_event, handle_callback, input_target, native_context, native_disable_reason,
    rejection_reason, CallbackMoment, EventFields, NativeApp, NativeContext, NativeDisableReason,
    NativeEvent, NativeInputTarget, QueuedEvent, EVENT_DISABLED_TIMEOUT, EVENT_KEY_DOWN,
    EVENT_LEFT_MOUSE_DOWN, FLAG_COMMAND,
};
use zanei_macos::eventtap::output::{
    emit, emit_clipboard, emit_or_quarantine, emit_released, raw_event,
    resolve_input_authorization, try_send_counted, EmitResult,
};
use zanei_macos::eventtap::state::{Driver, EventTapApi, MonotonicTime};
use zanei_macos::eventtap::support::{click_button, refresh_secure_input};
use zanei_macos::eventtap::worker::{
    early_text_read_allowed, handle_native_event, needs_context, ClickObservation, WorkerMoment,
    WorkerState,
};
use zanei_macos::focus_context::FocusContext;
use zanei_macos::focused_field::{FieldClass, FocusedField};
use zanei_macos::schema::{
    App, CaptureContext, ClickButton, ClipboardOrigin, DoubleBits, EmptyData, EventData, FieldKind,
    InputKeyData, InputKeyKind, RawEvent, Window,
};
use zanei_macos::text_capture::authorization::{
    input_authorization_channel, InputAuthorization, InputAuthorizations,
};
use zanei_macos::text_capture::policy::{
    BrowserState, CapturePolicy, TextContentDecision, TextContentPolicy, CHROME_BUNDLE_ID,
};
use zanei_macos::text_capture::quarantine::TextQuarantine;
use zanei_macos::window_list::NativeWindow;
use zanei_macos::workspace::{ApplicationActivationPolicy, ApplicationInfo};

fn capture_policy() -> CapturePolicy {
    CapturePolicy::new(TextContentPolicy::new(
        Some(true),
        BrowserState {
            capture_context: CaptureContext::default(),
            allows_text: false,
            version: None,
        },
    ))
}

fn double(value: f64) -> DoubleBits {
    DoubleBits { bits: value.to_bits() }
}

fn start() -> Instant {
    Instant::from_nanos(1_000 * SECOND)
}

fn raw() -> RawEvent {
    RawEvent {
        observed_at: None,
        source: "macos.eventtap".to_owned(),
        event_type: "app.launch".to_owned(),
        app: App {
            name: "Test".to_owned(),
            bundle_id: Some("dev.zanei.test".to_owned()),
            pid: Some(501),
        },
        window: None,
        element: None,
        data: EventData::AppLaunch(EmptyData {}),
        capture_context: CaptureContext::default(),
    }
}

#[derive(Default)]
struct FakeEventTapApi {
    enabled: bool,
    secure_input: bool,
}

impl EventTapApi for FakeEventTapApi {
    fn enable(&mut self) {
        self.enabled = true;
    }

    fn is_enabled(&self) -> bool {
        self.enabled
    }

    fn recreate(&mut self) -> bool {
        self.enabled = true;
        true
    }

    fn secure_input_enabled(&self) -> bool {
        self.secure_input
    }
}

fn context(window: Option<NativeWindow>) -> NativeContext {
    NativeContext {
        app: NativeApp {
            name: "Test".to_owned(),
            bundle_id: Some("dev.zanei.test".to_owned()),
            pid: 501,
        },
        window,
    }
}

fn window() -> NativeWindow {
    NativeWindow { title: Some("Window".to_owned()), id: Some(11) }
}

fn test_app() -> ApplicationInfo {
    ApplicationInfo {
        name: "Test".to_owned(),
        bundle_id: Some("dev.zanei.test".to_owned()),
        pid: 501,
        activation_policy: ApplicationActivationPolicy::Regular,
    }
}

fn other_app() -> ApplicationInfo {
    ApplicationInfo {
        name: "Other".to_owned(),
        bundle_id: Some("dev.zanei.other".to_owned()),
        pid: 502,
        activation_policy: ApplicationActivationPolicy::Regular,
    }
}

fn text_field(generation: u64) -> FocusedField {
    FocusedField { generation, class: FieldClass::KnownText(FieldKind::Text) }
}

fn has_window(authorizations: &mut InputAuthorizations, pid: i32, at: Instant) -> bool {
    authorizations.matching(pid, 3, at).is_some()
}

#[test]
fn tap_time_focus_generation_mismatch_denies_text() {
    let mut focus_context = FocusContext::new();
    focus_context.activate(test_app(), Some(window()));
    let target = Some(NativeInputTarget {
        context: context(Some(window())),
        focused_field: Some(text_field(1)),
        focus_generation: 1,
        field_generation: 1,
    });
    assert!(early_text_read_allowed(&target, &capture_policy(), &focus_context));

    focus_context.activate(
        other_app(),
        Some(NativeWindow { title: Some("Other".to_owned()), id: Some(12) }),
    );

    assert!(!early_text_read_allowed(&target, &capture_policy(), &focus_context));
}

fn key_event(
    target: Option<NativeInputTarget>,
    authorization: Option<InputAuthorization>,
) -> NativeEvent {
    NativeEvent::Key {
        observation: KeyObservation { key_code: 0, modifiers: KeyModifiers::default(), text: None },
        target,
        authorization,
        secure_input: false,
        ime_active: false,
        observed_at: OffsetDateTime::UNIX_EPOCH,
    }
}

fn target(context: &NativeContext) -> NativeInputTarget {
    NativeInputTarget {
        context: context.clone(),
        focused_field: None,
        focus_generation: 1,
        field_generation: 1,
    }
}

fn worker(
    sender: BoundedChannel<RawEvent>,
    click_sender: Option<BoundedChannel<ClickObservation>>,
    authorizations: InputAuthorizations,
) -> WorkerState {
    WorkerState {
        sender,
        click_sender,
        clipboard: Some(ClipboardTracker::new(0)),
        quarantine: TextQuarantine::new(),
        authorizations,
        dropped_events: 0,
    }
}

fn plain_worker(
    sender: BoundedChannel<RawEvent>,
    click_sender: Option<BoundedChannel<ClickObservation>>,
) -> WorkerState {
    let (_, authorizations) = input_authorization_channel();
    worker(sender, click_sender, authorizations)
}

fn moment(capture_text_content: bool) -> WorkerMoment {
    WorkerMoment {
        capture_text_content,
        now: MonotonicTime::from_nanos(0),
        at: start(),
        ime_active: false,
        secure_input_enabled: false,
    }
}

fn focus_on(context: Option<&NativeContext>) -> FocusContext {
    let mut focus_context = FocusContext::new();
    if let Some(context) = context {
        focus_context.activate(
            ApplicationInfo {
                name: context.app.name.clone(),
                bundle_id: context.app.bundle_id.clone(),
                pid: context.app.pid,
                activation_policy: ApplicationActivationPolicy::Regular,
            },
            context.window.clone(),
        );
    }
    focus_context
}

fn handle_event(
    event: NativeEvent,
    worker: &mut WorkerState,
    context: Option<&NativeContext>,
) -> bool {
    let mut driver = Driver::start(FakeEventTapApi::default(), MonotonicTime::from_nanos(0));
    handle_native_event(
        event,
        &mut driver,
        worker,
        |_| panic!("the clipboard is not read"),
        context,
        moment(false),
        &capture_policy(),
        &focus_on(context),
    )
}

#[test]
fn full_raw_event_channel_increments_drop_counter_through_worker() {
    let mut sender = BoundedChannel::new(1);
    sender.try_send(raw()).expect("first event fits");
    let context = context(Some(window()));
    let mut worker = plain_worker(sender, None);

    assert!(handle_event(
        key_event(Some(target(&context)), None),
        &mut worker,
        Some(&context),
    ));
    assert_eq!(worker.dropped_events, 1);
}

#[test]
fn disconnected_click_channel_increments_drop_counter() {
    let mut sender = BoundedChannel::new(1);
    sender.disconnect();
    let mut dropped = 0;
    let connected = try_send_counted(
        &mut sender,
        ClickObservation {
            pid: 501,
            x: double(1.0),
            y: double(2.0),
            button: ClickButton::Left,
            click_count: 1,
            observed_at: OffsetDateTime::UNIX_EPOCH,
        },
        &mut dropped,
    );
    assert_eq!(connected, EmitResult::Disconnected);
    assert_eq!(dropped, 1);
}

#[test]
fn disconnected_raw_event_channel_requests_worker_stop() {
    let mut sender = BoundedChannel::new(1);
    sender.disconnect();
    let mut dropped = 0;
    let result = try_send_counted(&mut sender, raw(), &mut dropped);
    assert_eq!(result, EmitResult::Disconnected);
    assert!(!result.continues());
    assert_eq!(dropped, 1);
}

#[test]
fn missing_window_is_filtered_without_incrementing_drop_counter() {
    let mut sender = BoundedChannel::new(1);
    let mut dropped = 0;
    assert_eq!(emit(&mut sender, None, &mut dropped), EmitResult::Filtered);
    assert_eq!(dropped, 0);
}

fn typed(text: &str) -> EventData {
    EventData::InputKey(InputKeyData {
        kind: InputKeyKind::Text,
        modifiers: Vec::new(),
        combo: None,
        text: Some(text.to_owned()),
        field_kind: Some(FieldKind::Text),
        count: 1,
    })
}

#[test]
fn eventtap_chrome_body_without_version_is_suppressed() {
    let policy = capture_policy();
    let app = App {
        name: "Google Chrome".to_owned(),
        bundle_id: Some(CHROME_BUNDLE_ID.to_owned()),
        pid: Some(501),
    };
    let decision = policy.decision(&app, Some(11), None);
    assert!(!decision.is_allowed());
    assert_eq!(decision.chrome_version(), None);
    let event = RawEvent {
        observed_at: Some(OffsetDateTime::UNIX_EPOCH),
        source: "macos.eventtap".to_owned(),
        event_type: "input.key".to_owned(),
        app,
        window: Some(Window { title: Some("Window".to_owned()), id: Some(11) }),
        element: None,
        data: typed("private"),
        capture_context: CaptureContext::default(),
    };
    let mut sender = BoundedChannel::new(1);
    let mut dropped = 0;
    let mut quarantine = TextQuarantine::new();

    assert_eq!(
        emit_or_quarantine(
            &mut sender,
            Some(event),
            &policy,
            Some(&decision),
            &mut quarantine,
            start(),
            &mut dropped,
        ),
        EmitResult::Sent
    );

    let event = sender.try_recv().expect("suppressed metadata event");
    let EventData::InputKey(data) = event.data else {
        panic!("input.key");
    };
    assert_eq!(data.text, None);
}

fn text_content(include_content: bool) -> PasteboardContent {
    PasteboardContent {
        kind: PasteboardKind::Text,
        size_bytes: include_content.then_some(7),
        text: if include_content { Some("private".to_owned()) } else { None },
    }
}

#[test]
fn v3_2_send_time_decision_overrides_stale_allow() {
    let context = context(Some(window()));
    let app = context.app.raw_app();
    let mut policy = capture_policy();
    let earlier = policy.decision(&app, Some(11), None);
    let event = raw_event(
        "input.key",
        &context,
        typed("private key"),
        &policy,
        OffsetDateTime::UNIX_EPOCH,
    )
    .expect("event built while allowed");
    assert!(earlier.is_allowed());
    policy.replace_filter(Some(false));
    let mut sender = BoundedChannel::new(2);
    let mut dropped = 0;
    let mut quarantine = TextQuarantine::new();

    assert_eq!(
        emit_or_quarantine(
            &mut sender,
            Some(event),
            &policy,
            Some(&earlier),
            &mut quarantine,
            start(),
            &mut dropped,
        ),
        EmitResult::Sent
    );
    let event = sender.try_recv().expect("denied key metadata event");
    let EventData::InputKey(data) = event.data else {
        panic!("input.key");
    };
    assert_eq!(data.text, None);

    let mut clipboard_policy = capture_policy();
    let clipboard_decision = clipboard_policy.decision(&app, Some(11), None);
    let mut clipboard = ClipboardTracker::new(1);
    let observed_at =
        ClipboardObservationTime { monotonic: start(), wall: OffsetDateTime::UNIX_EPOCH };
    clipboard.observe_copy(&target(&context), observed_at, true, clipboard_decision.clone());
    assert!(clipboard_decision.is_allowed());
    let output = clipboard.copy_event(
        2,
        &focus_on(Some(&context)).current(),
        observed_at,
        text_content,
        false,
        &clipboard_policy,
    );
    let EventData::ClipboardCopy(data) = &output.as_ref().expect("copy output").event.data else {
        panic!("clipboard.copy");
    };
    assert_eq!(data.text.as_deref(), Some("private"));
    clipboard_policy.replace_filter(Some(false));

    assert_eq!(
        emit_clipboard(
            &mut sender,
            output,
            &clipboard_policy,
            &mut quarantine,
            start(),
            &mut dropped,
        ),
        EmitResult::Sent
    );
    let event = sender.try_recv().expect("denied copy metadata event");
    let EventData::ClipboardCopy(data) = event.data else {
        panic!("clipboard.copy");
    };
    assert_eq!(data.text, None);
    assert_eq!(data.size_bytes, None);

    let mut deny_first = capture_policy();
    deny_first.replace_filter(Some(false));
    let earlier_deny = deny_first.decision(&app, Some(11), None);
    deny_first.replace_filter(Some(true));
    assert!(!deny_first.decision(&app, Some(11), None).at_send(Some(&earlier_deny)).is_allowed());
}

#[test]
fn windowless_key_is_filtered_without_incrementing_drop_counter() {
    let context = context(None);
    let mut worker = plain_worker(BoundedChannel::new(1), None);

    assert!(handle_event(key_event(None, None), &mut worker, Some(&context)));
    assert!(worker.sender.try_recv().is_none());
    assert_eq!(worker.dropped_events, 0);
}

fn press() -> NativeEvent {
    NativeEvent::MouseDown {
        x: double(1.0),
        y: double(2.0),
        button: 0,
        click_count: 1,
        observed_at: OffsetDateTime::UNIX_EPOCH,
    }
}

#[test]
fn windowless_click_does_not_increment_drop_counter() {
    let context = context(None);
    let mut worker = plain_worker(BoundedChannel::new(1), Some(BoundedChannel::new(8)));

    assert!(handle_event(press(), &mut worker, Some(&context)));
    assert_eq!(
        worker
            .click_sender
            .as_mut()
            .and_then(BoundedChannel::try_recv)
            .expect("windowless click should reach AX hit testing")
            .pid,
        501
    );
    assert_eq!(worker.dropped_events, 0);
}

#[test]
fn contextless_click_is_filtered_without_incrementing_drop_counter() {
    let mut worker = plain_worker(BoundedChannel::new(1), Some(BoundedChannel::new(8)));

    assert!(handle_event(press(), &mut worker, None));
    assert!(worker.click_sender.as_mut().and_then(BoundedChannel::try_recv).is_none());
    assert_eq!(worker.dropped_events, 0);
}

#[test]
fn tap_time_target_wins_when_worker_focus_has_moved() {
    let context = context(Some(window()));
    let (publisher, mut authorizations) = input_authorization_channel();
    let input_at = start();
    let authorization = publisher
        .prepare(&mut authorizations, 502, 3, input_at)
        .expect("authorization channel should accept the reservation");
    let mut worker = worker(BoundedChannel::new(1), None, authorizations);

    assert!(handle_event(
        key_event(
            Some(NativeInputTarget {
                context: NativeContext {
                    app: NativeApp {
                        name: "Other".to_owned(),
                        bundle_id: Some("dev.zanei.other".to_owned()),
                        pid: 502,
                    },
                    window: Some(window()),
                },
                focused_field: None,
                focus_generation: 1,
                field_generation: 1,
            }),
            Some(authorization),
        ),
        &mut worker,
        Some(&context),
    ));
    let event = worker.sender.try_recv().expect("tap-time target should remain attributable");
    assert_eq!(event.app.pid, Some(502));
    assert_eq!(event.app.bundle_id.as_deref(), Some("dev.zanei.other"));
    assert_eq!(worker.dropped_events, 0);
    assert!(!has_window(&mut worker.authorizations, 502, input_at));
}

#[test]
fn focus_context_feeds_key_and_paste_payloads_and_clears_on_app_transition() {
    let mut focus_context = FocusContext::new();
    focus_context.activate(test_app(), Some(window()));
    focus_context.update_focused_field(
        501,
        Some(FocusedField { generation: 7, class: FieldClass::KnownText(FieldKind::Search) }),
    );
    let field_kind = focus_context
        .current()
        .and_then(|focus| focus.focused_field)
        .and_then(FocusedField::field_kind);
    let key = key_data(
        &KeyObservation { key_code: 0, modifiers: KeyModifiers::default(), text: None },
        false,
        field_kind,
        false,
    );
    let paste = clipboard_paste(
        PasteboardContent { kind: PasteboardKind::Text, size_bytes: Some(3), text: None },
        field_kind,
    );

    assert_eq!(key.field_kind, Some(FieldKind::Search));
    assert_eq!(paste.field_kind, Some(FieldKind::Search));
    focus_context.activate(other_app(), Some(window()));
    assert_eq!(focus_context.current().and_then(|focus| focus.focused_field), None);
}

#[test]
fn missing_ax_focus_observation_keeps_field_kind_null() {
    assert_eq!(FocusContext::new().current().and_then(|focus| focus.focused_field), None);
}

#[test]
fn dropped_raw_event_rejects_input_authorization() {
    let mut sender = BoundedChannel::new(1);
    sender.try_send(raw()).expect("first event fits");
    let mut dropped = 0;
    let emit_result = try_send_counted(&mut sender, raw(), &mut dropped);
    let (publisher, mut authorizations) = input_authorization_channel();
    let input_at = start();
    let authorization = publisher
        .prepare(&mut authorizations, 501, 3, input_at)
        .expect("authorization channel should accept the reservation");

    resolve_input_authorization(emit_result, Some(&authorization), &mut authorizations);

    assert!(!has_window(&mut authorizations, 501, input_at));
}

#[test]
fn authorization_matching_remains_pid_scoped() {
    let (publisher, mut authorizations) = input_authorization_channel();
    let input_at = start();
    let authorization = publisher
        .prepare(&mut authorizations, 501, 3, input_at)
        .expect("authorization channel should accept the reservation");
    resolve_input_authorization(EmitResult::Sent, Some(&authorization), &mut authorizations);

    assert!(!has_window(&mut authorizations, 502, input_at));
    assert!(has_window(&mut authorizations, 501, input_at));
    assert!(has_window(&mut authorizations, 501, input_at));
}

#[test]
fn disconnected_raw_event_rejects_input_authorization() {
    let (publisher, mut authorizations) = input_authorization_channel();
    let input_at = start();
    let authorization = publisher
        .prepare(&mut authorizations, 501, 3, input_at)
        .expect("authorization channel should accept the reservation");

    resolve_input_authorization(
        EmitResult::Disconnected,
        Some(&authorization),
        &mut authorizations,
    );

    assert!(!has_window(&mut authorizations, 501, input_at));
}

#[test]
fn callback_snapshot_preserves_generation_after_focus_moves() {
    let mut focus_context = FocusContext::new();
    focus_context.activate(test_app(), Some(window()));
    focus_context.update_focused_field(501, Some(text_field(3)));
    let callback_snapshot = focus_context
        .current()
        .and_then(|focus| focus.focused_field)
        .expect("callback should see the current focused field");

    focus_context.update_focused_field(
        501,
        Some(FocusedField { generation: 4, class: FieldClass::KnownText(FieldKind::Search) }),
    );

    assert_eq!(callback_snapshot.generation, 3);
    assert_eq!(
        focus_context
            .current()
            .and_then(|focus| focus.focused_field)
            .map(|field| field.generation),
        Some(4)
    );
}

fn command(key_code: u16) -> KeyObservation {
    KeyObservation {
        key_code,
        modifiers: KeyModifiers { cmd: true, ..KeyModifiers::default() },
        text: None,
    }
}

fn shortcut(key_code: u16, target: NativeInputTarget, secure_input: bool) -> NativeEvent {
    NativeEvent::Key {
        observation: command(key_code),
        target: Some(target),
        authorization: None,
        secure_input,
        ime_active: false,
        observed_at: OffsetDateTime::UNIX_EPOCH,
    }
}

/// Handles an event that was made in a text field that still has the focus.
fn handle_in_field(event: NativeEvent, worker: &mut WorkerState, secure_input: bool) -> bool {
    let mut focus_context = FocusContext::new();
    focus_context.activate(test_app(), Some(window()));
    let mut driver = Driver::start(FakeEventTapApi::default(), MonotonicTime::from_nanos(0));
    handle_native_event(
        event,
        &mut driver,
        worker,
        text_content,
        Some(&context(Some(window()))),
        WorkerMoment { secure_input_enabled: secure_input, ..moment(true) },
        &capture_policy(),
        &focus_context,
    )
}

fn field_target() -> NativeInputTarget {
    NativeInputTarget { focused_field: Some(text_field(1)), ..target(&context(Some(window()))) }
}

#[test]
fn paste_reports_the_key_and_the_body() {
    let mut worker = plain_worker(BoundedChannel::new(4), None);
    assert!(handle_in_field(shortcut(KEYCODE_V, field_target(), false), &mut worker, false));
    let types: Vec<String> =
        worker.sender.drain().into_iter().map(|event| event.event_type).collect();
    assert_eq!(types, vec!["input.key", "clipboard.paste"]);
}

#[test]
fn secure_input_reports_no_keystroke() {
    let mut worker = plain_worker(BoundedChannel::new(4), None);
    assert!(handle_in_field(shortcut(KEYCODE_V, field_target(), true), &mut worker, false));
    assert!(handle_in_field(shortcut(KEYCODE_V, field_target(), false), &mut worker, true));
    assert_eq!(worker.sender.len(), 0);
}

#[test]
fn copy_shortcut_explains_the_next_change() {
    let mut worker = plain_worker(BoundedChannel::new(4), None);
    assert!(handle_in_field(shortcut(KEYCODE_C, field_target(), false), &mut worker, false));
    let _ = worker.sender.drain();
    let focus = focus_on(Some(&context(Some(window())))).current();
    let observed_at =
        ClipboardObservationTime { monotonic: start(), wall: OffsetDateTime::UNIX_EPOCH };
    let policy = capture_policy();
    let unread = || panic!("the time is read for a change only");
    assert!(worker.report_copy(0, &focus, unread, text_content, false, &policy));
    assert_eq!(worker.sender.len(), 0);
    assert!(worker.report_copy(1, &focus, || observed_at, text_content, false, &policy));
    let event = worker.sender.try_recv().expect("copy");
    let EventData::ClipboardCopy(data) = event.data else {
        panic!("clipboard.copy");
    };
    assert_eq!(data.origin, ClipboardOrigin::CopyShortcut);
    assert_eq!(data.text.as_deref(), Some("private"));
}

#[test]
fn scrolling_is_reported_in_its_window() {
    let mut worker = plain_worker(BoundedChannel::new(4), None);
    let scroll = || NativeEvent::Scroll {
        vertical: double(-2.0),
        horizontal: double(0.0),
        observed_at: OffsetDateTime::UNIX_EPOCH,
    };
    assert!(handle_event(scroll(), &mut worker, Some(&context(Some(window())))));
    assert!(handle_event(scroll(), &mut worker, None));
    let event = worker.sender.try_recv().expect("scroll");
    assert_eq!(event.event_type, "input.scroll");
    assert_eq!(worker.sender.len(), 0);
}

#[test]
fn disabled_tap_is_recovered() {
    let mut worker = plain_worker(BoundedChannel::new(4), None);
    let mut driver = Driver::start(FakeEventTapApi::default(), MonotonicTime::from_nanos(0));
    driver.api_mut().enabled = false;
    assert!(handle_native_event(
        NativeEvent::Disabled(NativeDisableReason::Timeout),
        &mut driver,
        &mut worker,
        |_| panic!("the clipboard is not read"),
        None,
        moment(false),
        &capture_policy(),
        &FocusContext::new(),
    ));
    assert!(driver.api_mut().enabled);
}

#[test]
fn only_a_stopped_tap_needs_no_focus() {
    assert!(!needs_context(false, &Vec::new()));
    assert!(needs_context(true, &Vec::new()));
    let stopped = vec![NativeEvent::Disabled(NativeDisableReason::UserInput)];
    assert!(!needs_context(false, &stopped));
    assert!(needs_context(false, &vec![press()]));
}

#[test]
fn callback_queues_the_event_with_its_reservation() {
    let (publisher, mut authorizations) = input_authorization_channel();
    let mut focus_context = FocusContext::new();
    focus_context.activate(test_app(), Some(window()));
    focus_context.update_focused_field(501, Some(text_field(3)));
    let mut queue = BoundedChannel::new(1);
    let mut dropped = 0;
    let mut degraded = 0;
    for _ in 0..2 {
        handle_callback(
            &mut queue,
            Some(publisher),
            &mut authorizations,
            EVENT_KEY_DOWN,
            Some("event"),
            CallbackMoment {
                occurred_at: start(),
                secure_input: false,
                ime_active: true,
                target_pid: 501,
                focus: focus_context.current(),
            },
            &mut dropped,
            &mut degraded,
        );
    }
    assert_eq!((dropped, degraded), (1, 0));
    let Some(QueuedEvent::Event { event, input_target, authorization, ime_active, .. }) =
        queue.try_recv()
    else {
        panic!("the key press is queued");
    };
    assert_eq!(event, "event");
    assert!(ime_active);
    assert_eq!(input_target.map(|target| target.context.app.pid), Some(501));
    assert!(authorization.expect("reservation").is_pending(&authorizations));
    handle_callback(
        &mut queue,
        Some(publisher),
        &mut authorizations,
        EVENT_DISABLED_TIMEOUT,
        None::<&str>,
        CallbackMoment {
            occurred_at: start(),
            secure_input: false,
            ime_active: false,
            target_pid: 0,
            focus: None,
        },
        &mut dropped,
        &mut degraded,
    );
    assert!(matches!(
        queue.try_recv(),
        Some(QueuedEvent::Disabled(NativeDisableReason::Timeout))
    ));
}

#[test]
fn targets_belong_to_the_focused_process() {
    let mut focus_context = FocusContext::new();
    focus_context.activate(test_app(), Some(window()));
    let target = input_target(501, focus_context.current());
    assert_eq!(target.as_ref().map(|target| target.focus_generation), Some(1));
    assert!(input_target(502, focus_context.current()).is_none());
    assert!(input_target(501, None).is_none());
    let focus = focus_context.current().expect("focus");
    assert_eq!(native_context(focus).app.pid, 501);
    assert_ne!(rejection_reason(&target, true), rejection_reason(&None, false));
    assert_eq!(native_disable_reason(EVENT_KEY_DOWN), None);
}

fn fields(event_type: u32) -> EventFields {
    EventFields {
        event_type,
        flags: FLAG_COMMAND,
        key_code: 9,
        vertical: double(0.0),
        horizontal: double(0.0),
        x: double(3.0),
        y: double(4.0),
        button: 1,
        click_count: 2,
    }
}

#[test]
fn decoded_keys_carry_text_only_where_it_may_be_read() {
    let (_, mut authorizations) = input_authorization_channel();
    let mut decode = |allowed: bool, ime_active: bool, units: &[u16]| {
        let event = decode_event(
            fields(EVENT_KEY_DOWN),
            Some(field_target()),
            None,
            false,
            ime_active,
            true,
            OffsetDateTime::UNIX_EPOCH,
            |_| allowed,
            || units.to_vec(),
            &mut authorizations,
        );
        let NativeEvent::Key { observation, .. } = event else {
            panic!("a key");
        };
        assert_eq!(observation.key_code, 9);
        assert!(observation.modifiers.cmd);
        observation.text
    };
    assert_eq!(decode(true, false, &[0x76]).as_deref(), Some("v"));
    assert_eq!(decode(false, false, &[0x76]), None);
    assert_eq!(decode(true, true, &[0x76]), None);
    assert_eq!(decode(true, false, &[]).as_deref(), Some(""));
    assert_eq!(decode(true, false, &[0xe9, 0xd83d, 0xde00]).as_deref(), Some("\u{e9}\u{1f600}"));
    assert_eq!(decode(true, false, &[0xd83d, 0x76]).as_deref(), Some("\u{fffd}v"));
    assert_eq!(decode(true, false, &[0xde00, 0xd83d]).as_deref(), Some("\u{fffd}\u{fffd}"));
    assert_eq!(
        decode(true, false, &[0xd83d, 0xd83d, 0xde00]).as_deref(),
        Some("\u{fffd}\u{1f600}")
    );
}

#[test]
fn decoded_presses_keep_place_and_button() {
    let (_, mut authorizations) = input_authorization_channel();
    let event = decode_event(
        fields(EVENT_LEFT_MOUSE_DOWN),
        None,
        None,
        false,
        false,
        true,
        OffsetDateTime::UNIX_EPOCH,
        |_| panic!("a press has no text"),
        || panic!("a press has no text"),
        &mut authorizations,
    );
    let NativeEvent::MouseDown { x, y, button, click_count, .. } = event else {
        panic!("a press");
    };
    assert_eq!((x, y, button, click_count), (double(3.0), double(4.0), 1, 2));
    assert_eq!(click_button(0), ClickButton::Left);
    assert_eq!(click_button(1), ClickButton::Right);
    assert_eq!(click_button(9), ClickButton::Other);
}

#[test]
fn released_events_are_sent_until_the_receiver_is_gone() {
    let mut quarantine = TextQuarantine::new();
    let key = zanei_macos::text_capture::quarantine::ChromeWindowKey { pid: 501, window_id: 11 };
    for _ in 0..2 {
        quarantine.hold_text(raw(), key, 1, OffsetDateTime::UNIX_EPOCH, start());
    }
    let mut sender = BoundedChannel::new(1);
    let mut dropped = 0;
    assert!(emit_released(&mut sender, quarantine.flush(), &mut dropped));
    assert_eq!((sender.len(), dropped), (1, 1));
    quarantine.hold_text(raw(), key, 1, OffsetDateTime::UNIX_EPOCH, start());
    sender.disconnect();
    assert!(!emit_released(&mut sender, quarantine.flush(), &mut dropped));
}

#[test]
fn secure_input_is_published() {
    let mut driver = Driver::start(FakeEventTapApi::default(), MonotonicTime::from_nanos(0));
    let mut published = true;
    assert!(!refresh_secure_input(&mut driver, &mut published));
    assert!(!published);
    driver.api_mut().secure_input = true;
    assert!(refresh_secure_input(&mut driver, &mut published));
    assert!(published);
}

#[test]
fn modes_tell_what_they_capture() {
    let input = EventTapMode::InputOnly { capture_text_content: true };
    assert!(input.captures_input() && input.captures_text_content() && !input.captures_clicks());
    let clicks = EventTapMode::ClickOnly;
    assert!(clicks.captures_clicks() && !clicks.captures_input());
    assert!(!clicks.captures_text_content());
    let both = EventTapMode::InputAndClicks { capture_text_content: false };
    assert!(both.captures_clicks() && both.captures_input() && !both.captures_text_content());
}

#[test]
fn safari_body_waits_for_its_confirmation() {
    let app = App {
        name: "Safari".to_owned(),
        bundle_id: Some("com.apple.Safari".to_owned()),
        pid: Some(501),
    };
    let answer = TextContentDecision {
        allowed: true,
        capture_context: CaptureContext::default(),
        chrome_version: Some(4),
    };
    let mut policy = capture_policy();
    policy.answer_surface(app.clone(), Some(11), Some("Mail".to_owned()), answer.clone());
    let typed_under = |title: &str| RawEvent {
        observed_at: Some(OffsetDateTime::UNIX_EPOCH),
        source: "macos.eventtap".to_owned(),
        event_type: "input.key".to_owned(),
        app: app.clone(),
        window: Some(Window { title: Some(title.to_owned()), id: Some(11) }),
        element: None,
        data: typed("private"),
        capture_context: CaptureContext::default(),
    };
    let mut sender = BoundedChannel::new(4);
    let mut dropped = 0;
    let mut quarantine = TextQuarantine::new();
    let mut send = |title: &str, earlier: Option<&TextContentDecision>| {
        emit_or_quarantine(
            &mut sender,
            Some(typed_under(title)),
            &policy,
            earlier,
            &mut quarantine,
            start(),
            &mut dropped,
        )
    };
    assert_eq!(send("Mail", Some(&answer)), EmitResult::Sent);
    assert_eq!(send("News", None), EmitResult::Sent);
    assert_eq!(send("Mail", Some(&policy.decision(&app, Some(11), Some("News")))), EmitResult::Sent);
    let bodies: Vec<Option<String>> = sender
        .drain()
        .into_iter()
        .map(|event| match event.data {
            EventData::InputKey(data) => data.text,
            _ => panic!("input.key"),
        })
        .collect();
    assert_eq!(bodies, vec![Some("private".to_owned()), None]);
    assert_eq!(quarantine.flush().len(), 1);
}
