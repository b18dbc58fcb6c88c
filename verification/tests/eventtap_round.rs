//! The rounds of the event-tap worker.

use std::cell::Cell;

use time::OffsetDateTime;
use zanei_macos::channel::BoundedChannel;
use zanei_macos::clock::{Instant, SECOND};
use zanei_macos::eventtap::clipboard::{ClipboardObservationTime, ClipboardTracker};
use zanei_macos::eventtap::logic::{
    KeyModifiers, KeyObservation, PasteboardContent, PasteboardKind,
};
use zanei_macos::eventtap::native::{
    NativeApp, NativeContext, NativeDisableReason, NativeEvent, NativeInputTarget,
};
use zanei_macos::eventtap::round::{
    begin_round, end_round, handle_events, start_tap, BatchConditions, EventReading,
};
use zanei_macos::eventtap::state::{Driver, EventTapApi, MonotonicTime, TapState};
use zanei_macos::eventtap::worker::WorkerState;
use zanei_macos::focus_context::FocusContext;
use zanei_macos::schema::{CaptureContext, EventData, RawEvent};
use zanei_macos::text_capture::authorization::input_authorization_channel;
use zanei_macos::text_capture::policy::{BrowserState, CapturePolicy, TextContentPolicy};
use zanei_macos::text_capture::quarantine::{ChromeWindowKey, TextQuarantine};
use zanei_macos::window_list::NativeWindow;
use zanei_macos::workspace::{ApplicationActivationPolicy, ApplicationInfo};

struct FakeApi {
    enabled: bool,
    recreates: bool,
    recreations: usize,
    secure_input: bool,
}

fn api() -> FakeApi {
    FakeApi { enabled: true, recreates: true, recreations: 0, secure_input: false }
}

impl EventTapApi for FakeApi {
    fn enable(&mut self) {}

    fn is_enabled(&self) -> bool {
        self.enabled
    }

    fn recreate(&mut self) -> bool {
        self.recreations += 1;
        self.recreates
    }

    fn secure_input_enabled(&self) -> bool {
        self.secure_input
    }
}

fn policy() -> CapturePolicy {
    CapturePolicy::new(TextContentPolicy::new(
        Some(true),
        BrowserState {
            capture_context: CaptureContext::default(),
            allows_text: false,
            version: None,
        },
    ))
}

fn window() -> Option<NativeWindow> {
    Some(NativeWindow { title: Some("Window".to_owned()), id: Some(11) })
}

fn focus_context() -> FocusContext {
    let mut context = FocusContext::new();
    context.activate(
        ApplicationInfo {
            name: "Test".to_owned(),
            bundle_id: Some("dev.zanei.test".to_owned()),
            pid: 501,
            activation_policy: ApplicationActivationPolicy::Regular,
        },
        window(),
    );
    context
}

fn worker(capacity: usize) -> WorkerState {
    let (_, authorizations) = input_authorization_channel();
    WorkerState {
        sender: BoundedChannel::new(capacity),
        click_sender: None,
        clipboard: Some(ClipboardTracker::new(1)),
        quarantine: TextQuarantine::new(),
        authorizations,
        dropped_events: 0,
    }
}

fn key() -> NativeEvent {
    NativeEvent::Key {
        observation: KeyObservation { key_code: 0, modifiers: KeyModifiers::default(), text: None },
        target: Some(NativeInputTarget {
            context: NativeContext {
                app: NativeApp {
                    name: "Test".to_owned(),
                    bundle_id: Some("dev.zanei.test".to_owned()),
                    pid: 501,
                },
                window: window(),
            },
            focused_field: None,
            focus_generation: 1,
            field_generation: 1,
        }),
        authorization: None,
        secure_input: false,
        ime_active: false,
        observed_at: OffsetDateTime::UNIX_EPOCH,
    }
}

fn start() -> Instant {
    Instant::from_nanos(1_000 * SECOND)
}

fn time_now() -> ClipboardObservationTime {
    ClipboardObservationTime { monotonic: start(), wall: OffsetDateTime::UNIX_EPOCH }
}

fn conditions() -> BatchConditions {
    BatchConditions {
        capture_text_content: true,
        now: MonotonicTime::from_nanos(SECOND),
        secure_input_enabled: false,
    }
}

fn reading() -> EventReading {
    EventReading { at: start(), ime_active: false }
}

fn content(include_content: bool) -> PasteboardContent {
    PasteboardContent {
        kind: PasteboardKind::Text,
        size_bytes: include_content.then_some(7),
        text: if include_content { Some("private".to_owned()) } else { None },
    }
}

fn sent_types(worker: &mut WorkerState) -> Vec<String> {
    worker.sender.drain().into_iter().map(|event| event.event_type).collect()
}

#[test]
fn starting_counts_what_went_wrong() {
    let mut secure = true;
    let mut operations = 0;
    let read_now = || MonotonicTime::from_nanos(0);
    let started = start_tap(api(), &read_now, || true, &mut secure, &mut operations);
    assert_eq!(started.driver.state(), TapState::Enabled);
    assert!(!started.degraded);
    assert!(!secure);
    assert_eq!((started.observed_degraded_entries, operations), (0, 0));

    let failing = FakeApi { recreates: false, secure_input: true, ..api() };
    let started = start_tap(failing, &read_now, || false, &mut secure, &mut operations);
    assert!(started.degraded);
    assert!(secure);
    assert_eq!((started.observed_degraded_entries, operations), (1, 2));
}

#[test]
fn events_are_handled_in_order_until_the_consumer_is_gone() {
    let mut driver = Driver::start(api(), MonotonicTime::from_nanos(0));
    let mut connected = worker(8);
    let reads = Cell::new(0);
    let read_event = || {
        reads.set(reads.get() + 1);
        reading()
    };
    assert!(handle_events(
        vec![key(), NativeEvent::Disabled(NativeDisableReason::Timeout), key()],
        &mut driver,
        &mut connected,
        conditions(),
        content,
        &read_event,
        None,
        &policy(),
        &focus_context(),
    ));
    assert_eq!(reads.get(), 3);
    assert_eq!(sent_types(&mut connected), vec!["input.key", "input.key"]);

    let mut gone = worker(8);
    gone.sender.disconnect();
    assert!(!handle_events(
        vec![key(), key()],
        &mut driver,
        &mut gone,
        conditions(),
        content,
        &read_event,
        None,
        &policy(),
        &focus_context(),
    ));
    assert_eq!(reads.get(), 4);
    assert_eq!(gone.dropped_events, 1);
}

#[test]
fn round_begins_with_released_events_and_the_clipboard() {
    let mut driver = Driver::start(api(), MonotonicTime::from_nanos(0));
    let mut worker = worker(8);
    let window = ChromeWindowKey { pid: 501, window_id: 11 };
    let held = RawEvent {
        observed_at: None,
        source: "macos.eventtap".to_owned(),
        event_type: "held".to_owned(),
        app: zanei_macos::schema::App { name: "Test".to_owned(), bundle_id: None, pid: None },
        window: None,
        element: None,
        data: EventData::AppLaunch(zanei_macos::schema::EmptyData {}),
        capture_context: CaptureContext::default(),
    };
    worker.quarantine.hold_text(held, window, 1, OffsetDateTime::UNIX_EPOCH, start());
    let released = worker.quarantine.flush();
    let mut secure = true;
    assert!(begin_round(
        &mut driver,
        &mut worker,
        released,
        &mut secure,
        || 2,
        time_now,
        content,
        &policy(),
        &focus_context(),
    ));
    assert!(!secure);
    assert_eq!(sent_types(&mut worker), vec!["held", "clipboard.copy"]);
    assert!(begin_round(
        &mut driver,
        &mut worker,
        Vec::new(),
        &mut secure,
        || 2,
        || panic!("the time is read for a change only"),
        content,
        &policy(),
        &focus_context(),
    ));
    assert!(sent_types(&mut worker).is_empty());

    let mut keyless = WorkerState { clipboard: None, ..worker };
    assert!(begin_round(
        &mut driver,
        &mut keyless,
        Vec::new(),
        &mut secure,
        || panic!("there is no clipboard to look at"),
        time_now,
        content,
        &policy(),
        &focus_context(),
    ));
}

#[test]
fn round_ends_with_events_wake_ups_and_the_clipboard() {
    let mut driver = Driver::start(api(), MonotonicTime::from_nanos(0));
    let mut worker = worker(8);
    let mut queue = BoundedChannel::new(8);
    assert!(queue.try_send(()).is_ok());
    let mut wakes = Some(queue);
    assert!(end_round(
        vec![key()],
        &mut driver,
        &mut worker,
        &mut wakes,
        conditions(),
        2,
        content,
        &reading,
        time_now,
        &policy(),
        &focus_context(),
    ));
    assert_eq!(sent_types(&mut worker), vec!["input.key", "clipboard.copy"]);
    assert_eq!(driver.api_mut().recreations, 2);
    assert_eq!(wakes.map(|queue| queue.len()), Some(0));
}

#[test]
fn secure_keystrokes_need_no_clipboard() {
    let mut driver = Driver::start(api(), MonotonicTime::from_nanos(0));
    let mut worker = WorkerState { clipboard: None, ..worker(8) };
    let secure = BatchConditions { secure_input_enabled: true, ..conditions() };
    assert!(handle_events(
        vec![key()],
        &mut driver,
        &mut worker,
        secure,
        content,
        &reading,
        None,
        &policy(),
        &focus_context(),
    ));
    assert!(sent_types(&mut worker).is_empty());
}
