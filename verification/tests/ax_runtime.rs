//! Observing several applications.

use std::cell::{Cell, RefCell};

use time::OffsetDateTime;
use zanei_macos::ax::accessibility::{FilterAnswer, ManualAccessibilityPolicy};
use zanei_macos::ax::dispatch::{NativeRegistrations, NotificationReads};
use zanei_macos::ax::element::{CapturedValue, ValueFieldSnapshot, ValueSnapshot};
use zanei_macos::ax::health::{AxFailureState, AxRecoverySite};
use zanei_macos::ax::initial_snapshot::{
    element_snapshot, focused_element_snapshot, window_snapshot, ElementReader,
    FocusedElementSnapshot,
};
use zanei_macos::ax::observer::{FocusMoment, TargetKind};
use zanei_macos::ax::runtime::{
    focused_window, needs_secure_input, register_application, NativeAx, QueuedNotification,
};
use zanei_macos::ax::types::{native_error, ElementId, NativeAxError, NativeAxEvent, NativeElement};
use zanei_macos::clock::{Instant, SECOND};
use zanei_macos::eventtap::output::EmitResult;
use zanei_macos::focused_field::FieldClass;
use zanei_macos::schema::{App, CaptureContext, DoubleBits, FieldKind};
use zanei_macos::secure_input::SecureInputProbeError;
use zanei_macos::text_capture::authorization::input_authorization_channel;
use zanei_macos::text_capture::policy::{
    BrowserState, CapturePolicy, TextContentDecision, TextContentPolicy,
};
use zanei_macos::window_list::{AxFrame, AxPoint, AxSize, NativeWindow};

const FIELD: ElementId = 40;

const WINDOW: ElementId = 50;

fn policy() -> CapturePolicy {
    CapturePolicy::new(TextContentPolicy::new(
        Some(true),
        BrowserState {
            capture_context: CaptureContext::default(),
            allows_text: false,
            version: None,
        },
    ))
}

fn app(pid: i64) -> App {
    App {
        name: format!("App {pid}"),
        bundle_id: Some("dev.zanei.fake".to_owned()),
        pid: Some(pid),
    }
}

fn window() -> NativeWindow {
    NativeWindow { title: Some("Window".to_owned()), id: Some(11) }
}

fn start() -> Instant {
    Instant::from_nanos(1_000 * SECOND)
}

fn moment() -> FocusMoment {
    FocusMoment {
        notification_at: start(),
        observed_at: OffsetDateTime::UNIX_EPOCH,
        secure_input: false,
    }
}

fn text_class() -> FieldClass {
    FieldClass::KnownText(FieldKind::Text)
}

fn field_snapshot(_: ElementId, _: bool) -> ValueFieldSnapshot {
    ValueFieldSnapshot {
        role: Some("AXTextArea".to_owned()),
        subrole: None,
        field_class: text_class(),
        registration_class: Some(text_class()),
        failure: None,
    }
}

fn element_read(
    _: ElementId,
    _: bool,
) -> Result<Option<FocusedElementSnapshot>, NativeAxError> {
    Ok(Some(FocusedElementSnapshot {
        window: Some(window()),
        element: NativeElement {
            role: Some("AXTextArea".to_owned()),
            subrole: None,
            title: None,
            value: None,
            value_len: Some(1),
            capture_decision: None,
        },
        text_baseline: Some("A".to_owned()),
        field_class: text_class(),
    }))
}

fn value(text: &str) -> ValueSnapshot {
    ValueSnapshot {
        value: Some(text.to_owned()),
        value_len: u64::try_from(text.len()).ok(),
        role: Some("AXTextArea".to_owned()),
        subrole: None,
        field_class: text_class(),
        failure: None,
    }
}

fn value_read(_: ElementId, _: bool, _: bool) -> ValueSnapshot {
    value("A")
}

fn captured(
    _: ElementId,
    window: Option<NativeWindow>,
    _: bool,
    _: bool,
) -> CapturedValue {
    CapturedValue { snapshot: value("Ax"), decision: None, window, surface_changed: false }
}

fn works(_: ElementId) -> Result<(), NativeAxError> {
    Ok(())
}

type Works = fn(ElementId) -> Result<(), NativeAxError>;

fn native() -> NativeRegistrations<Works, Works, Works, Works> {
    NativeRegistrations {
        add_title: works,
        remove_title: works,
        add_value: works,
        remove_value: works,
    }
}

fn runtime() -> NativeAx {
    let (_, authorizations) = input_authorization_channel();
    let mut runtime = NativeAx::new(true, authorizations);
    let steps = RefCell::new(Vec::new());
    let step = |name: &'static str| steps.borrow_mut().push(name);
    let events = runtime.attach(
        7,
        app(7),
        true,
        true,
        |enabled| step(if enabled { "set" } else { "unset" }),
        || {
            step("role");
            Ok("AXApplication".to_owned())
        },
        || {
            step("window");
            Ok(Some(WINDOW))
        },
        || {
            step("focus");
            Ok(Some(FIELD))
        },
        moment(),
        &policy(),
        field_snapshot,
        element_read,
        value_read,
        &native(),
    );
    assert_eq!(steps.into_inner(), vec!["set", "role", "window", "focus"]);
    assert!(matches!(events.as_slice(), [NativeAxEvent::UiFocused { pid: 7, .. }]));
    runtime
}

fn queued(pid: i32, element: ElementId, name: Option<&str>) -> QueuedNotification {
    QueuedNotification {
        pid,
        element,
        notification: name.map(str::to_owned),
        notification_at: start(),
        observed_at: OffsetDateTime::UNIX_EPOCH,
    }
}

fn handle(
    runtime: &mut NativeAx,
    notification: QueuedNotification,
) -> Result<Vec<NativeAxEvent>, NativeAxError> {
    runtime.handle_notification(
        notification,
        false,
        &policy(),
        NotificationReads {
            focused_window: |_| Ok(Some(WINDOW)),
            window: |_| Ok(Some(window())),
            focused_element: |_| Ok(Some(FIELD)),
            field: field_snapshot,
            snapshot: element_read,
            value: value_read,
            capture: captured,
        },
        &native(),
    )
}

#[test]
fn attached_application_delivers_windows_and_values() {
    let mut runtime = runtime();
    assert!(runtime.observers[0].is_current_target(TargetKind::Window, WINDOW));
    assert!(runtime.observers[0].is_current_target(TargetKind::Value, FIELD));
    assert!(matches!(
        handle(&mut runtime, queued(7, 0, Some("AXFocusedWindowChanged"))).as_deref(),
        Ok([NativeAxEvent::WindowFocused { pid: 7, .. }])
    ));
    assert!(matches!(
        handle(&mut runtime, queued(7, WINDOW, Some("AXTitleChanged"))).as_deref(),
        Ok([NativeAxEvent::WindowTitleChanged { pid: 7, .. }])
    ));
    assert!(matches!(
        handle(&mut runtime, queued(7, 0, Some("AXFocusedUIElementChanged"))).as_deref(),
        Ok([NativeAxEvent::UiFocused { pid: 7, generation: 1, .. }])
    ));
    assert_eq!(handle(&mut runtime, queued(7, FIELD, Some("AXValueChanged"))), Ok(vec![]));
    let events = runtime.flush_pending(false);
    assert!(matches!(events.as_slice(), [NativeAxEvent::UiValueChanged(event)] if event.pid == 7));
}

#[test]
fn foreign_notifications_change_nothing() {
    let mut runtime = runtime();
    assert_eq!(handle(&mut runtime, queued(8, FIELD, Some("AXValueChanged"))), Ok(vec![]));
    assert_eq!(handle(&mut runtime, queued(7, 41, Some("AXValueChanged"))), Ok(vec![]));
    assert_eq!(handle(&mut runtime, queued(7, 51, Some("AXTitleChanged"))), Ok(vec![]));
    assert_eq!(handle(&mut runtime, queued(7, 0, Some("AXMoved"))), Ok(vec![]));
    assert!(runtime.flush_pending(false).is_empty());
    let error = handle(&mut runtime, queued(7, FIELD, None)).expect_err("nameless");
    assert_eq!((error.operation(), error.code()), ("AX notification decoding", -1));
}

fn poll(runtime: &mut NativeAx, secure: Result<bool, SecureInputProbeError>) -> usize {
    let probe = || secure;
    runtime
        .poll(
            Some(&probe),
            &policy(),
            NotificationReads {
                focused_window: |_| Ok(Some(WINDOW)),
                window: |_| Err(native_error("AXTitle", -25_204)),
                focused_element: |_| Ok(Some(FIELD)),
                field: field_snapshot,
                snapshot: element_read,
                value: value_read,
                capture: captured,
            },
            &native(),
            start,
        )
        .len()
}

#[test]
fn one_poll_handles_one_notification() {
    let mut runtime = runtime();
    for _ in 0..2 {
        let title = queued(7, WINDOW, Some("AXTitleChanged"));
        assert_eq!(runtime.enqueue(title), EmitResult::Sent);
    }
    assert_eq!(poll(&mut runtime, Ok(false)), 0);
    assert_eq!(runtime.take_degraded_operations(), 1);
    assert_eq!(runtime.queue.len(), 1);
    assert_eq!(poll(&mut runtime, Err(SecureInputProbeError::Timeout)), 0);
    assert_eq!(runtime.take_degraded_operations(), 2);
    assert!(runtime.failures.current().is_some());
    assert_eq!(poll(&mut runtime, Ok(false)), 0);
    assert!(runtime.failures.current().is_none());
    assert_eq!(runtime.take_degraded_operations(), 0);
}

#[test]
fn notifications_beyond_the_queue_are_counted() {
    let mut runtime = runtime();
    for _ in 0..1_025 {
        let _ = runtime.enqueue(queued(7, WINDOW, Some("AXTitleChanged")));
    }
    assert_eq!(runtime.take_dropped_events(), 1);
    assert_eq!(runtime.take_dropped_events(), 0);
}

#[test]
fn attached_application_is_followed_again() {
    let mut runtime = runtime();
    let steps = RefCell::new(Vec::new());
    let step = |name: &'static str| steps.borrow_mut().push(name);
    let again = runtime.attach_again(
        7,
        app(7),
        false,
        |enabled| step(if enabled { "set" } else { "unset" }),
        || {
            step("focus");
            Ok(Some(FIELD))
        },
        moment(),
        &policy(),
        field_snapshot,
        element_read,
        value_read,
        &works,
        &works,
    );
    let events = again.expect("attached");
    assert_eq!(steps.into_inner(), vec!["unset", "focus"]);
    assert!(matches!(
        events.as_slice(),
        [NativeAxEvent::UiFocused { pid: 7, generation: 1, element: Some(element), .. }]
            if element.role.as_deref() == Some("AXTextArea")
    ));
    let unknown = runtime.attach_again(
        8,
        app(8),
        false,
        |_| panic!("an application that is not observed has no setting"),
        || panic!("an application that is not observed has no focus"),
        moment(),
        &policy(),
        field_snapshot,
        element_read,
        value_read,
        &works,
        &works,
    );
    assert_eq!(unknown, None);

    let unchanged = runtime.attach_again(
        7,
        app(7),
        false,
        |_| panic!("the setting is made already"),
        || Ok(Some(FIELD)),
        moment(),
        &policy(),
        field_snapshot,
        element_read,
        value_read,
        &works,
        &works,
    );
    assert!(unchanged.is_some());
}

#[test]
fn detached_application_is_forgotten() {
    let mut runtime = runtime();
    let removed = Cell::new(0);
    let remove_native = |_: ElementId| {
        removed.set(removed.get() + 1);
        Ok(())
    };
    assert!(runtime.detach(7, false, &remove_native).is_empty());
    assert_eq!(removed.get(), 1);
    assert!(runtime.position(7).is_none());
    assert!(runtime.detach(7, false, &remove_native).is_empty());
    assert_eq!(removed.get(), 1);
    assert!(runtime.into_authorizations().can_issue());
}

#[test]
fn replaced_policy_changes_settings() {
    let mut runtime = runtime();
    let manual = ManualAccessibilityPolicy::new(true, false);
    let deny = |_: &App| Some(FilterAnswer { text_content: false, content_snapshot: true });
    assert_eq!(runtime.reconcile_manual_accessibility(&manual, &deny), vec![(7, false)]);
    assert_eq!(runtime.reconcile_manual_accessibility(&manual, &deny), vec![]);
    let allow = |_: &App| Some(FilterAnswer { text_content: true, content_snapshot: true });
    assert_eq!(runtime.reconcile_manual_accessibility(&manual, &allow), vec![(7, true)]);
}

#[test]
fn clicks_are_looked_up_in_their_application() {
    let mut runtime = runtime();
    let element = |value: Option<&str>| NativeElement {
        role: Some("AXButton".to_owned()),
        subrole: None,
        title: None,
        value: value.map(str::to_owned),
        value_len: None,
        capture_decision: None,
    };
    let hit = runtime.hit_test(
        7,
        || Ok(Some(60)),
        |_| Ok(Some((Some(window()), element(Some("on"))))),
    );
    assert_eq!(hit.map(|hit| hit.element.value), Some(Some("on".to_owned())));
    assert!(runtime.hit_test(8, || panic!("not observed"), |_| panic!("not observed")).is_none());
    assert!(runtime.hit_test(7, || Ok(None), |_| panic!("nothing there")).is_none());
    assert_eq!(runtime.take_degraded_operations(), 0);
    let failed = || Err(native_error("AXElementAtPosition", -25_204));
    assert!(runtime.hit_test(7, failed, |_| panic!("nothing there")).is_none());
    assert_eq!(runtime.take_degraded_operations(), 1);
}

#[test]
fn applications_need_their_focus_notifications() {
    assert_eq!(register_application(&|_| Ok(())), Ok(true));
    let no_windows = |name: &'static str| {
        if name == "AXWindowCreated" {
            Err(native_error("AXObserverAddNotification", -25_207))
        } else {
            Ok(())
        }
    };
    assert_eq!(register_application(&no_windows), Ok(false));
    let no_focus = |_: &'static str| Err(native_error("AXObserverAddNotification", -25_207));
    assert!(register_application(&no_focus).is_err());
    assert!(needs_secure_input(Some("AXValueChanged")));
    assert!(!needs_secure_input(Some("AXTitleChanged")));
    let event = NativeAxEvent::WindowFocused {
        pid: 7,
        window: window(),
        observed_at: OffsetDateTime::UNIX_EPOCH,
    };
    assert_eq!(focused_window(Some(event)), Some(window()));
    assert_eq!(focused_window(None), None);
}

#[test]
fn secure_input_is_asked_while_text_is_captured() {
    let mut runtime = runtime();
    let site = AxRecoverySite::SecureInputAttach;
    assert!(runtime.ask_secure_input(Some(|| Ok(true)), site));
    assert!(!runtime.ask_secure_input(Some(|| Ok(false)), site));
    let none: Option<fn() -> Result<bool, SecureInputProbeError>> = None;
    assert!(runtime.ask_secure_input(none, site));
    assert_eq!(runtime.failures, AxFailureState::default());
}

fn double(value: f64) -> DoubleBits {
    DoubleBits { bits: value.to_bits() }
}

fn frame() -> AxFrame {
    AxFrame {
        origin: AxPoint { x: double(1.0), y: double(2.0) },
        size: AxSize { width: double(3.0), height: double(4.0) },
    }
}

#[test]
fn windows_are_found_by_number_or_frame() {
    let by_number = window_snapshot(
        || Ok(Some("AXWindow".to_owned())),
        || Ok(Some(11)),
        || panic!("the number is known"),
        || panic!("the number is known"),
        |_, _| panic!("the number is known"),
        || Ok(Some("Window".to_owned())),
    );
    assert_eq!(by_number, Ok(Some(window())));
    let by_frame = window_snapshot(
        || Ok(Some("AXWindow".to_owned())),
        || Ok(None),
        || Ok(Some(7)),
        || Ok(Some(frame())),
        |pid, bounds| if pid == 7 && bounds == frame() { Some(12) } else { None },
        || Ok(None),
    );
    assert_eq!(by_frame, Ok(Some(NativeWindow { title: None, id: Some(12) })));
}

fn allowed() -> Option<TextContentDecision> {
    Some(policy().decision(&app(7), Some(11), None))
}

#[test]
fn clicked_values_are_read_and_typed_text_is_not() {
    let reader = |role: &'static str, value: &'static str| ElementReader {
        subrole: || Ok(None),
        role: move || Ok(Some(role.to_owned())),
        window: || Ok(Some(window())),
        decide: |_: &Option<NativeWindow>| allowed(),
        value: move || Ok(Some(value.to_owned())),
        count: || Ok(None),
        title: || Ok(None),
    };
    let (_, clicked) =
        element_snapshot(reader("AXCheckBox", "on")).expect("readable").expect("element");
    assert_eq!(clicked.value.as_deref(), Some("on"));
    let (_, typed) =
        element_snapshot(reader("AXTextArea", "typed")).expect("readable").expect("element");
    assert_eq!(typed.value, None);
    let focused = focused_element_snapshot(reader("AXTextArea", "typed"), false)
        .expect("readable")
        .expect("element");
    assert_eq!(focused.element.value, None);
    assert_eq!(focused.text_baseline.as_deref(), Some("typed"));
    let secure = focused_element_snapshot(reader("AXTextArea", "typed"), true).expect("readable");
    assert!(secure.map_or(true, |snapshot| snapshot.text_baseline.is_none()));
}
