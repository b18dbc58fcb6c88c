//! Focused elements, their values and their notifications.

use std::cell::Cell;

use time::OffsetDateTime;
use zanei_macos::ax::element::{
    capture_value_snapshot_with, gated_value, optional_attribute, positive_pid, same_clean_title,
    same_value_surface, value_change_read_surface, value_field_snapshot, value_length,
    value_snapshot_with, ValueFieldSnapshot, ValueSnapshot,
};
use zanei_macos::ax::health::{AxFailurePhase, AxFailureState, AxRecoverySite};
use zanei_macos::ax::initial_snapshot::focused_element_is_excluded;
use zanei_macos::ax::observer::{
    AppObserver, FocusMoment, RegisteredFocusedTarget, TargetKind,
};
use zanei_macos::ax::registration::{
    value_notification_eligible, NotificationRegistry, RegistrationError,
};
use zanei_macos::ax::runtime::secure_input_active;
use zanei_macos::ax::types::{
    native_error, native_status, ElementId, NativeAxError, NativeAxEvent, NativeAxObservation,
    NativeElement, AX_ERROR_ATTRIBUTE_UNSUPPORTED,
};
use zanei_macos::ax::value_context::{
    after_target_preparation, classified_field_snapshot, DeferredResolution, DeferredValueContext,
    FocusedValueContext,
};
use zanei_macos::clock::{Instant, MILLISECOND, SECOND};
use zanei_macos::focused_field::{field_class, FieldClass};
use zanei_macos::schema::{App, CaptureContext, FieldKind};
use zanei_macos::secure_input::SecureInputProbeError;
use zanei_macos::text_capture::authorization::{input_authorization_channel, InputAuthorizations};
use zanei_macos::text_capture::focused_target::FocusedTarget;
use zanei_macos::text_capture::policy::{
    BrowserState, CapturePolicy, TextContentDecision, TextContentPolicy,
};
use zanei_macos::text_capture::value::{
    TextChange, ValueCapture, ValueObservation, VALUE_DEBOUNCE,
};
use zanei_macos::window_list::NativeWindow;

const ELEMENT: ElementId = 40;

const PROCESS: i32 = 7;

fn start() -> Instant {
    Instant::from_nanos(1_000 * SECOND)
}

fn wall() -> OffsetDateTime {
    OffsetDateTime::UNIX_EPOCH
}

fn policy() -> CapturePolicy {
    CapturePolicy::new(TextContentPolicy::new(
        Some(true),
        BrowserState {
            capture_context: CaptureContext::default(),
            allows_text: false,
            version: None,
        },
    ))
}

fn app() -> App {
    App {
        name: "Fake".to_owned(),
        bundle_id: Some("dev.zanei.fake".to_owned()),
        pid: Some(7),
    }
}

/// An editor, whose windows change under a focused field.
fn ide_app() -> App {
    App {
        name: "Cursor".to_owned(),
        bundle_id: Some("dev.example.Cursor".to_owned()),
        pid: Some(7),
    }
}

fn moment(notification_at: Instant, secure_input: bool) -> FocusMoment {
    FocusMoment { notification_at, observed_at: wall(), secure_input }
}

/// The text that was appended between two values.
fn appended(change: &Option<TextChange>) -> Option<String> {
    let change = change.as_ref()?;
    change.after.strip_prefix(change.before.as_str()).map(str::to_owned)
}

fn element(role: Option<&str>, value_len: Option<u64>) -> NativeElement {
    NativeElement {
        role: role.map(str::to_owned),
        subrole: None,
        title: None,
        value: None,
        value_len,
        capture_decision: None,
    }
}

fn fake_observer() -> AppObserver {
    let mut observer = AppObserver::new(PROCESS, false, app(), false);
    let generation = observer.focused_target.next_generation();
    let installed =
        observer.focused_target.transition::<()>(Ok(Some(RegisteredFocusedTarget {
            element: ELEMENT,
            context: FocusedValueContext::new(
                None,
                element(None, None),
                false,
                None,
                generation,
                FieldClass::Unknown,
            ),
        })));
    assert!(installed.is_ok(), "install fake focused target");
    observer
}

fn focused_class(observer: &AppObserver) -> FieldClass {
    observer.focused_target.current().expect("fake focused target").context.field_class
}

#[derive(Default)]
struct FakeValueNotifications {
    add_calls: Cell<usize>,
    remove_calls: Cell<usize>,
    add_error: Cell<Option<i32>>,
    remove_error: Cell<Option<i32>>,
}

impl FakeValueNotifications {
    fn add_native(&self) -> Result<(), NativeAxError> {
        self.add_calls.set(self.add_calls.get() + 1);
        self.add_error.get().map_or(Ok(()), |code| Err(native_error("fake add", code)))
    }

    fn remove_native(&self) -> Result<(), NativeAxError> {
        self.remove_calls.set(self.remove_calls.get() + 1);
        self.remove_error.get().map_or(Ok(()), |code| Err(native_error("fake remove", code)))
    }
}

fn fake_field_snapshot(role: Option<&str>) -> ValueFieldSnapshot {
    ValueFieldSnapshot {
        role: role.map(str::to_owned),
        subrole: None,
        field_class: field_class(role, None),
        registration_class: Some(field_class(role, None)),
        failure: None,
    }
}

fn refresh_fake_target(
    observer: &mut AppObserver,
    role: Option<&str>,
    authorizations: &mut InputAuthorizations,
    fake_ax: &FakeValueNotifications,
) -> Result<(), RegistrationError> {
    observer.refresh_current_field_class_with(
        fake_field_snapshot(role),
        authorizations,
        || fake_ax.add_native(),
        || fake_ax.remove_native(),
    )
}

#[test]
fn value_change_reclassifies_before_reading_value_and_character_count() {
    assert_eq!(
        value_change_read_surface(),
        ["AXRole", "AXSubrole", "AXValue", "AXNumberOfCharacters"]
    );
}

#[test]
fn same_target_unknown_to_text_area_registers_value_notification_once() {
    let fake_ax = FakeValueNotifications::default();
    let mut observer = fake_observer();
    let (_publisher, mut authorizations) = input_authorization_channel();

    for snapshot in [None, Some("AXTextArea"), Some("AXTextArea")] {
        assert!(
            refresh_fake_target(&mut observer, snapshot, &mut authorizations, &fake_ax).is_ok()
        );
    }

    assert_eq!(fake_ax.add_calls.get(), 1);
    assert_eq!(fake_ax.remove_calls.get(), 0);
    assert_eq!(focused_class(&observer), FieldClass::KnownText(FieldKind::Text));
    assert!(observer.is_current_target(TargetKind::Value, ELEMENT));
}

fn reconcile(
    observer: &mut AppObserver,
    at: Instant,
    authorizations: &mut InputAuthorizations,
) -> Vec<NativeAxObservation> {
    observer.reconcile_accessibility_if_due(
        moment(at, false),
        &policy(),
        authorizations,
        || Err(native_error("AXFocusedUIElement", -25_202)),
        |_, _| panic!("there is no target to classify"),
        |_, _| panic!("there is no target to read"),
        |_, _, _| panic!("there is no value to read"),
        &|_| Ok(()),
        &|_| Ok(()),
    )
}

#[test]
fn application_role_query_failure_is_degraded_and_reconcile_remains_one_shot() {
    let now = start();
    let mut observer = AppObserver::new(PROCESS, false, app(), false);
    observer.activate_accessibility_tree(now, Err(native_error("AXRole", -25_202)));
    let (_publisher, mut authorizations) = input_authorization_channel();

    assert_eq!(observer.degraded, 1);
    assert_eq!(
        observer.failures.current().map(|failure| failure.phase),
        Some(AxFailurePhase::Observer)
    );
    observer.recover(AxRecoverySite::ApplicationRole);
    assert!(observer.failures.current().is_none());
    assert!(
        reconcile(&mut observer, now.after(999 * MILLISECOND), &mut authorizations).is_empty()
    );
    assert!(matches!(
        reconcile(&mut observer, now.after(SECOND), &mut authorizations).as_slice(),
        [NativeAxObservation::FocusedFieldObserved { pid: 7, focused_field: None }]
    ));
    assert!(reconcile(&mut observer, now.after(2 * SECOND), &mut authorizations).is_empty());
}

#[test]
fn same_target_known_to_excluded_unregisters_and_blocks_stale_delivery() {
    for excluded_role in [Some("AXSecureTextField"), None] {
        let fake_ax = FakeValueNotifications::default();
        let mut observer = fake_observer();
        let (_publisher, mut authorizations) = input_authorization_channel();
        assert!(refresh_fake_target(
            &mut observer,
            Some("AXTextArea"),
            &mut authorizations,
            &fake_ax,
        )
        .is_ok());

        for _ in 0..2 {
            assert!(refresh_fake_target(
                &mut observer,
                excluded_role,
                &mut authorizations,
                &fake_ax,
            )
            .is_ok());
        }

        assert_eq!(fake_ax.add_calls.get(), 1);
        assert_eq!(fake_ax.remove_calls.get(), 1);
        assert!(!observer.is_current_target(TargetKind::Value, ELEMENT));
    }
}

#[test]
fn notification_not_registered_is_readded_before_delivery_resumes() {
    let fake_ax = FakeValueNotifications::default();
    let mut observer = fake_observer();
    let (_publisher, mut authorizations) = input_authorization_channel();
    let text_area = Some("AXTextArea");
    assert!(refresh_fake_target(&mut observer, text_area, &mut authorizations, &fake_ax).is_ok());

    fake_ax.remove_error.set(Some(-25_210));
    let secure = Some("AXSecureTextField");
    assert!(refresh_fake_target(&mut observer, secure, &mut authorizations, &fake_ax).is_ok());
    assert!(!observer.is_current_target(TargetKind::Value, ELEMENT));
    assert_eq!(focused_class(&observer), FieldClass::SecureText);

    fake_ax.remove_error.set(None);
    assert!(refresh_fake_target(&mut observer, text_area, &mut authorizations, &fake_ax).is_ok());
    assert_eq!(fake_ax.add_calls.get(), 2);
    assert!(observer.is_current_target(TargetKind::Value, ELEMENT));
}

#[test]
fn stale_registration_requires_an_idempotent_add_before_delivery_resumes() {
    let fake_ax = FakeValueNotifications::default();
    let mut observer = fake_observer();
    let (_publisher, mut authorizations) = input_authorization_channel();
    let text_area = Some("AXTextArea");
    assert!(refresh_fake_target(&mut observer, text_area, &mut authorizations, &fake_ax).is_ok());

    fake_ax.remove_error.set(Some(-1));
    let secure = Some("AXSecureTextField");
    assert!(matches!(
        refresh_fake_target(&mut observer, secure, &mut authorizations, &fake_ax),
        Err(RegistrationError::Unregister(_))
    ));
    assert!(!observer.is_current_target(TargetKind::Value, ELEMENT));

    fake_ax.add_error.set(Some(-25_209));
    assert!(refresh_fake_target(&mut observer, text_area, &mut authorizations, &fake_ax).is_ok());
    assert_eq!(fake_ax.add_calls.get(), 2);
    assert!(observer.is_current_target(TargetKind::Value, ELEMENT));
}

#[test]
fn stale_target_is_reclaimed_when_focus_returns_from_another_target() {
    let target_a: ElementId = 1;
    let target_b: ElementId = 2;
    let mut registry = NotificationRegistry::default();

    assert!(registry.register(target_a, "AXValueChanged", || Ok(())).is_ok());
    assert!(matches!(
        registry.unregister(target_a, "AXValueChanged", || Err(native_error("fake remove", -1))),
        Err(RegistrationError::Unregister(_))
    ));
    assert!(registry.register(target_b, "AXValueChanged", || Ok(())).is_ok());
    assert!(registry
        .register(target_a, "AXValueChanged", || Err(native_error("fake add", -25_209)))
        .is_ok());
    assert!(registry.unregister(target_b, "AXValueChanged", || Ok(())).is_ok());

    assert!(registry.accepts_delivery(target_a, "AXValueChanged"));
    assert!(!registry.accepts_delivery(target_b, "AXValueChanged"));
}

#[test]
fn secure_input_suppression_preserves_registration_until_role_recovery() {
    let fake_ax = FakeValueNotifications::default();
    let mut observer = fake_observer();
    let (_publisher, mut authorizations) = input_authorization_channel();
    let text_area = Some("AXTextArea");
    assert!(refresh_fake_target(&mut observer, text_area, &mut authorizations, &fake_ax).is_ok());

    assert!(observer.take_due_value_events(start(), true, &mut authorizations).is_empty());
    assert!(observer.flush_pending(true, &mut authorizations).is_empty());
    assert!(observer.is_current_target(TargetKind::Value, ELEMENT));
    assert_eq!(fake_ax.remove_calls.get(), 0);

    assert!(refresh_fake_target(&mut observer, text_area, &mut authorizations, &fake_ax).is_ok());
    assert_eq!(fake_ax.add_calls.get(), 1);
    assert_eq!(focused_class(&observer), FieldClass::KnownText(FieldKind::Text));
}

#[test]
fn failed_registration_does_not_enable_value_delivery() {
    let fake_ax = FakeValueNotifications::default();
    fake_ax.add_error.set(Some(-1));
    let mut observer = fake_observer();
    let (_publisher, mut authorizations) = input_authorization_channel();
    let result =
        refresh_fake_target(&mut observer, Some("AXTextArea"), &mut authorizations, &fake_ax);

    assert!(matches!(result, Err(RegistrationError::Register(_))));
    assert_eq!(focused_class(&observer), FieldClass::Unknown);
    assert!(!observer.is_current_target(TargetKind::Value, ELEMENT));
}

#[test]
fn disabled_text_capture_does_not_read_the_ax_value() {
    let called = Cell::new(false);
    let value =
        gated_value::<(), _>(false, FieldClass::KnownSafeNonText, Some("AXButton"), || {
            called.set(true);
            Ok(Some("secret".to_owned()))
        })
        .unwrap();

    assert_eq!(value, None);
    assert!(!called.get());
}

#[test]
fn free_text_field_values_are_not_read() {
    let field_kinds = [
        FieldKind::Text,
        FieldKind::Search,
        FieldKind::Url,
        FieldKind::Email,
        FieldKind::Number,
        FieldKind::Other,
    ];

    for field_kind in field_kinds {
        let called = Cell::new(false);
        let value = gated_value::<(), _>(true, FieldClass::KnownText(field_kind), None, || {
            called.set(true);
            Ok(Some("document contents".to_owned()))
        })
        .unwrap();

        assert_eq!(value, None);
        assert!(!called.get());
    }
}

#[test]
fn opted_in_non_text_element_values_are_preserved() {
    let value =
        gated_value::<(), _>(true, FieldClass::KnownSafeNonText, Some("AXCheckBox"), || {
            Ok(Some("checked".to_owned()))
        })
        .unwrap();

    assert_eq!(value.as_deref(), Some("checked"));
}

#[test]
fn character_count_is_available_without_captured_content() {
    assert_eq!(value_length(Some(12), None), Some(12));
    assert_eq!(value_length(None, Some("\u{65e5}\u{672c}\u{8a9e}")), Some(3));
}

#[test]
fn secure_input_or_probe_failure_is_fail_closed() {
    let mut degraded = 0;
    let mut failures = AxFailureState::default();
    let site = AxRecoverySite::SecureInputTest;
    assert!(secure_input_active(true, Some(|| Ok(true)), &mut degraded, &mut failures, site));

    let gone = || Err(SecureInputProbeError::Disconnected);
    assert!(secure_input_active(true, Some(gone), &mut degraded, &mut failures, site));
    assert_eq!(degraded, 1);
    assert!(failures.current().is_some());

    assert!(!secure_input_active(true, Some(|| Ok(false)), &mut degraded, &mut failures, site));
    assert!(failures.current().is_none());
}

#[test]
fn actual_secure_text_field_is_excluded_from_focus_snapshot() {
    assert!(focused_element_is_excluded(FieldClass::SecureText));
    assert!(!focused_element_is_excluded(FieldClass::KnownText(FieldKind::Text)));
}

#[test]
fn secure_input_disabled_allows_authorized_text_capture() {
    let mut degraded = 0;
    let mut failures = AxFailureState::default();

    assert!(!secure_input_active(
        true,
        Some(|| Ok(false)),
        &mut degraded,
        &mut failures,
        AxRecoverySite::SecureInputTest,
    ));
}

#[test]
fn unknown_element_value_is_not_read() {
    let called = Cell::new(false);
    let value = gated_value::<(), _>(true, FieldClass::Unknown, Some("AXDocument"), || {
        called.set(true);
        Ok(Some("document contents".to_owned()))
    })
    .unwrap();

    assert_eq!(value, None);
    assert!(!called.get());
}

#[test]
fn long_static_text_value_is_suppressed() {
    let value =
        gated_value::<(), _>(true, FieldClass::KnownSafeNonText, Some("AXStaticText"), || {
            Ok(Some("x".repeat(257)))
        })
        .unwrap();

    assert_eq!(value, None);
}

fn text_class() -> FieldClass {
    FieldClass::KnownText(FieldKind::Text)
}

fn observation(at: Instant, value: &str) -> ValueObservation {
    ValueObservation {
        pid: 7,
        target_generation: 1,
        notification_at: at,
        value: Some(value.to_owned()),
        value_len: u64::try_from(value.chars().count()).ok(),
        field_class: text_class(),
        capture_decision: None,
    }
}

fn context(capture: ValueCapture, value_len: u64) -> FocusedValueContext {
    FocusedValueContext {
        window: None,
        element: element(Some("AXTextArea"), Some(value_len)),
        capture,
        generation: 1,
        field_class: text_class(),
        observed_at: None,
    }
}

#[test]
fn detached_value_context_resolves_after_late_confirmation() {
    let now = start();
    let (publisher, mut authorizations) = input_authorization_channel();
    let authorization = publisher
        .prepare(&mut authorizations, 7, 1, now)
        .expect("authorization channel should accept the reservation");
    let mut capture = ValueCapture::new(true, Some("A".to_owned()), text_class());
    let _ = capture.observe(observation(now.after(10 * MILLISECOND), "Ax"), &mut authorizations);
    let mut detached = DeferredValueContext::new(7, context(capture, 2));
    assert!(detached.authorization_is_pending(&authorizations));

    authorization.confirm(&mut authorizations);
    let DeferredResolution::Complete(Some(NativeAxEvent::UiValueChanged(event))) = detached
        .take_due(now.after(VALUE_DEBOUNCE + 10 * MILLISECOND), false, &mut authorizations)
    else {
        panic!("detached value should resolve into a value event");
    };
    assert_eq!(appended(&event.change).as_deref(), Some("x"));
}

#[test]
fn detached_context_without_pending_value_is_cleaned_up() {
    let (_publisher, mut authorizations) = input_authorization_channel();
    let capture = ValueCapture::new(true, Some("A".to_owned()), text_class());
    let mut detached = DeferredValueContext::new(7, context(capture, 1));

    assert!(matches!(
        detached.take_due(start(), false, &mut authorizations),
        DeferredResolution::Complete(None)
    ));
}

#[test]
fn degraded_same_target_classification_preserves_pending_value() {
    let now = start();
    let (publisher, mut authorizations) = input_authorization_channel();
    let authorization = publisher
        .prepare(&mut authorizations, 7, 1, now)
        .expect("authorization channel should accept the reservation");
    let mut capture = ValueCapture::new(true, Some("A".to_owned()), text_class());
    let _ = capture.observe(observation(now, "Ax"), &mut authorizations);
    let degraded = ValueFieldSnapshot {
        role: None,
        subrole: None,
        field_class: FieldClass::Unknown,
        registration_class: None,
        failure: Some(native_error("AXRole", -25204)),
    };

    assert!(classified_field_snapshot(degraded).is_none());
    authorization.confirm(&mut authorizations);
    assert_eq!(
        capture
            .take_due(now.after(VALUE_DEBOUNCE), &mut authorizations)
            .and_then(|emission| appended(&emission.change)),
        Some("x".to_owned())
    );

    let secure = ValueFieldSnapshot {
        role: None,
        subrole: None,
        field_class: FieldClass::SecureText,
        registration_class: None,
        failure: None,
    };
    assert_eq!(
        classified_field_snapshot(secure).map(|snapshot| snapshot.field_class),
        Some(FieldClass::SecureText)
    );
}

#[test]
fn failed_target_preparation_does_not_consume_previous_value() {
    let now = start();
    let (publisher, mut authorizations) = input_authorization_channel();
    let authorization = publisher
        .prepare(&mut authorizations, 7, 1, now)
        .expect("authorization channel should accept the reservation");
    let mut capture = ValueCapture::new(true, Some("A".to_owned()), text_class());
    let _ = capture.observe(observation(now, "Ax"), &mut authorizations);

    let resolutions = Cell::new(0);
    let result = after_target_preparation(Err::<(), _>("target snapshot failed"), || {
        resolutions.set(resolutions.get() + 1);
        capture.resolve_unreadable_focus_change(&mut authorizations)
    });
    assert!(result.is_err());
    assert_eq!(resolutions.get(), 0);
    authorization.confirm(&mut authorizations);
    assert_eq!(
        capture
            .take_due(now.after(VALUE_DEBOUNCE), &mut authorizations)
            .and_then(|emission| appended(&emission.change)),
        Some("x".to_owned())
    );

    assert_eq!(
        after_target_preparation(Ok::<_, &str>("prepared target"), || {
            resolutions.set(resolutions.get() + 1);
            "resolved previous"
        }),
        Ok(("prepared target", "resolved previous"))
    );
    assert_eq!(resolutions.get(), 1);
}

#[test]
fn failed_focus_clears_current_and_defers_previous_value() {
    let now = start();
    let (publisher, mut authorizations) = input_authorization_channel();
    let authorization = publisher
        .prepare(&mut authorizations, 7, 1, now)
        .expect("authorization channel should accept the reservation");
    let mut capture = ValueCapture::new(true, Some("A".to_owned()), text_class());
    let _ = capture.observe(observation(now, "Ax"), &mut authorizations);
    let mut target = FocusedTarget::new();
    assert!(matches!(target.transition::<()>(Ok(Some(context(capture, 2)))), Ok(None)));
    let previous = match target.transition::<()>(Ok(None)) {
        Ok(Some(previous)) => previous,
        _ => panic!("focus failure should return the previous target for deferral"),
    };

    assert_eq!(target.generation(), 2);
    assert!(target.current().is_none());

    let mut deferred = DeferredValueContext::new(7, previous);
    authorization.confirm(&mut authorizations);
    let DeferredResolution::Complete(Some(NativeAxEvent::UiValueChanged(event))) =
        deferred.take_due(now.after(VALUE_DEBOUNCE), false, &mut authorizations)
    else {
        panic!("deferred previous value should resolve after late confirmation");
    };
    assert_eq!(appended(&event.change).as_deref(), Some("x"));
}

#[test]
fn classification_preserves_static_body_origin_and_drops_it_with_body() {
    let mut observer = fake_observer();
    let decision = policy().decision(&app(), None, None);
    let context = &mut observer.focused_target.current_mut().expect("target").context;
    context.element.role = Some("AXStaticText".to_owned());
    context.element.value = Some("retained body".to_owned());
    context.element.capture_decision = Some(decision.clone());
    context.field_class = FieldClass::KnownSafeNonText;
    let (_, mut authorizations) = input_authorization_channel();
    for role in ["AXStaticText", "AXTextArea"] {
        assert!(
            observer
                .refresh_current_field_class_with(
                    fake_field_snapshot(Some(role)),
                    &mut authorizations,
                    || Ok(()),
                    || Ok(()),
                )
                .is_ok(),
            "reclassification"
        );
        let NativeAxEvent::UiFocused { element: Some(element), .. } = observer.focus_event(wall())
        else {
            panic!("focus event");
        };
        assert_eq!(
            element.value.as_deref(),
            (role == "AXStaticText").then_some("retained body")
        );
        assert_eq!(
            element.capture_decision.as_ref(),
            (role == "AXStaticText").then_some(&decision)
        );
    }
}

fn titled_window(title: &str) -> Option<NativeWindow> {
    Some(NativeWindow { title: Some(title.to_owned()), id: Some(11) })
}

#[test]
fn surface_race_preserves_registration_and_next_same_focus_input_recovers() {
    let mut observer = fake_observer();
    observer.capture_text_content = true;
    observer.app = ide_app();
    let (publisher, mut authorizations) = input_authorization_channel();
    let class = text_class();
    let context = &mut observer.focused_target.current_mut().unwrap().context;
    context.window = titled_window("main.rs");
    context.field_class = class;
    context.capture = ValueCapture::new(true, Some("old".to_owned()), class);
    let generation = context.generation;
    assert!(observer
        .reconcile_current_value_notification_with(class, || Ok(()), || Ok(()))
        .is_ok());
    let now = start();
    for (step, body) in ["old secret", "fresh", "fresh!"].into_iter().enumerate() {
        let at = now.after(step as u64 * SECOND);
        if step != 1 {
            publisher
                .prepare(&mut authorizations, 7, generation, at)
                .unwrap()
                .confirm(&mut authorizations);
        }
        let read = Cell::new(false);
        let mut events = observer.value_changed_events_with(
            moment(at, false),
            &mut authorizations,
            |_, window, enabled, _| {
                capture_value_snapshot_with(
                    window,
                    &policy(),
                    &ide_app(),
                    enabled,
                    &|| {
                        Ok(titled_window(if step == 0 && !read.get() {
                            "main.rs"
                        } else {
                            "next.rs"
                        }))
                    },
                    |allowed| {
                        value_snapshot_with(
                            fake_field_snapshot(Some("AXTextArea")),
                            allowed,
                            || {
                                read.set(true);
                                Ok(Some(body.to_owned()))
                            },
                            || Ok(Some(body.len() as i64)),
                        )
                    },
                )
            },
            &|_| Ok(()),
            &|_| Ok(()),
        );
        assert!(read.get(), "registered same-focus delivery must reach the value boundary");
        assert!(observer.is_current_target(TargetKind::Value, ELEMENT));
        events.extend(observer.flush_pending(false, &mut authorizations));
        let text: Vec<_> = events
            .into_iter()
            .filter_map(|event| match event {
                NativeAxEvent::UiValueChanged(event) => appended(&event.change),
                _ => None,
            })
            .collect();
        assert_eq!(text, if step == 2 { vec!["!".to_owned()] } else { vec![] });
    }
    // Disabled capture still reclassifies a genuinely unknown field and unregisters it.
    observer.capture_text_content = false;
    let _ = observer.value_changed_events_with(
        moment(now.after(3 * SECOND), false),
        &mut authorizations,
        |_, window, enabled, _| {
            capture_value_snapshot_with(
                window,
                &policy(),
                &ide_app(),
                enabled,
                &|| panic!("disabled capture does not read window"),
                |allowed| {
                    value_snapshot_with(
                        fake_field_snapshot(None),
                        allowed,
                        || panic!("unknown field does not read body"),
                        || panic!("unknown count"),
                    )
                },
            )
        },
        &|_| Ok(()),
        &|_| Ok(()),
    );
    assert!(!observer.is_current_target(TargetKind::Value, ELEMENT));
}

#[test]
fn registrations_are_independent() {
    let mut registry = NotificationRegistry::default();
    assert!(registry.register(1, "AXValueChanged", || Ok(())).is_ok());
    assert!(registry.register(1, "AXTitleChanged", || Ok(())).is_ok());
    assert!(registry.unregister(1, "AXValueChanged", || Ok(())).is_ok());
    assert!(!registry.is_registered(1, "AXValueChanged"));
    assert!(registry.accepts_delivery(1, "AXTitleChanged"));
    assert_eq!(registry.remaining(), vec![(1, "AXTitleChanged".to_owned())]);
    assert!(value_notification_eligible(text_class()));
    assert!(!value_notification_eligible(FieldClass::SecureText));
}

#[test]
fn roles_that_cannot_be_read_leave_no_registration_class() {
    let unreadable = || Err(native_error("AXRole", -25_204));
    let snapshot = value_field_snapshot(unreadable, || Ok(None), false);
    assert_eq!(snapshot.registration_class, None);
    assert!(snapshot.failure.is_some());
    let read = value_field_snapshot(|| Ok(Some("AXTextArea".to_owned())), || Ok(None), false);
    assert_eq!(read.field_class, text_class());
    assert_eq!(read.registration_class, Some(text_class()));
}

#[test]
fn raced_value_is_dropped() {
    let window = Cell::new("main.rs");
    let captured = capture_value_snapshot_with(
        titled_window("main.rs"),
        &policy(),
        &ide_app(),
        true,
        &|| Ok(titled_window(window.get())),
        |allowed| {
            window.set("other.rs");
            ValueSnapshot {
                value: allowed.then_some("secret".to_owned()),
                value_len: Some(6),
                role: None,
                subrole: None,
                field_class: text_class(),
                failure: None,
            }
        },
    );
    assert!(captured.surface_changed);
    assert_eq!(captured.snapshot.value, None);
    assert_eq!(captured.decision, None);
}

#[test]
fn titles_are_compared_without_their_edit_marks() {
    assert!(same_value_surface(&titled_window("main.rs"), &titled_window("main.rs")));
    assert!(!same_value_surface(&titled_window("main.rs"), &titled_window("next.rs")));
    assert!(!same_value_surface(&titled_window("main.rs"), &None));
    assert!(same_value_surface(&titled_window("main.rs"), &titled_window("\u{25cf} main.rs")));
    assert!(same_clean_title("main.rs", "\u{2022} main.rs"));
    assert!(!same_clean_title("main.rs", "lib.rs"));
}

#[test]
fn statuses_become_errors() {
    assert_eq!(native_status("AXRole", 0), Ok(()));
    let error = native_status("AXRole", -25_204).expect_err("failed");
    assert_eq!((error.operation(), error.code()), ("AXRole", -25_204));
    assert_eq!(error.message(), "AXRole failed with AXError -25204");
    assert!(!error.is_attribute_unsupported());
    let unsupported = native_error("AXValue", AX_ERROR_ATTRIBUTE_UNSUPPORTED);
    assert!(unsupported.is_attribute_unsupported());
    assert_eq!(optional_attribute::<u8>(Err(unsupported)), Ok(None));
    assert_eq!(optional_attribute(Ok(3)), Ok(Some(3)));
    assert_eq!(positive_pid(7), Some(7));
    assert_eq!(positive_pid(0), None);
}

#[test]
fn title_decides_whether_a_value_is_read() {
    let mut policy = policy();
    policy.answer_surface(
        ide_app(),
        titled_window(".env").and_then(|window| window.id),
        Some(".env".to_owned()),
        TextContentDecision {
            allowed: false,
            capture_context: CaptureContext::default(),
            chrome_version: None,
        },
    );
    for (title, readable) in [("main.rs", true), (".env", false)] {
        let captured = capture_value_snapshot_with(
            titled_window(title),
            &policy,
            &ide_app(),
            true,
            &|| Ok(titled_window(title)),
            |allowed| {
                assert_eq!(allowed, readable);
                ValueSnapshot {
                    value: allowed.then_some("secret".to_owned()),
                    value_len: Some(6),
                    role: None,
                    subrole: None,
                    field_class: text_class(),
                    failure: None,
                }
            },
        );
        assert_eq!(captured.snapshot.value.is_some(), readable);
    }
}

#[test]
fn remaining_registrations_are_listed_once() {
    let mut registry = NotificationRegistry::default();
    for element in [1, 2, 1] {
        let _ = registry.register(element, "AXValueChanged", || Ok(()));
    }
    let _ = registry.unregister(2, "AXValueChanged", || Err(native_error("AXValue", -25_204)));
    let mut remaining = registry.remaining();
    remaining.sort();
    assert_eq!(
        remaining,
        vec![(1, "AXValueChanged".to_owned()), (2, "AXValueChanged".to_owned())]
    );
}
