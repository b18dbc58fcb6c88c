//! The focused window and its transitions.

use zanei_macos::focus_context::{
    FocusContext, FocusSnapshot, TryRecvError, TRANSITION_CHANNEL_CAPACITY,
};
use zanei_macos::focused_field::{FieldClass, FocusedField};
use zanei_macos::schema::FieldKind;
use zanei_macos::window_list::NativeWindow;
use zanei_macos::workspace::{ApplicationActivationPolicy, ApplicationInfo};

fn app(pid: i64) -> ApplicationInfo {
    ApplicationInfo {
        name: format!("App {pid}"),
        bundle_id: Some(format!("dev.example.App{pid}")),
        pid,
        activation_policy: ApplicationActivationPolicy::Regular,
    }
}

fn window(id: i64, title: &str) -> NativeWindow {
    NativeWindow {
        title: Some(title.to_owned()),
        id: Some(id),
    }
}

#[test]
fn initial_activation_is_a_transition() {
    let mut context = FocusContext::new();
    let transitions = context.subscribe();

    let transition = context
        .activate(app(7), Some(window(11, "First")))
        .expect("initial transition");

    assert_eq!(transition.previous, None);
    assert_eq!(
        transition.current.as_ref().map(|value| value.generation),
        Some(1)
    );
    assert_eq!(context.try_recv(&transitions), Ok(transition));
}

#[test]
fn activation_does_not_require_an_ax_notification() {
    let mut context = FocusContext::new();
    context.activate(app(7), Some(window(11, "First")));

    let transition = context
        .activate(app(8), Some(window(12, "Second")))
        .expect("application transition");

    assert_eq!(
        transition.previous.as_ref().map(|value| value.app.pid),
        Some(7)
    );
    assert_eq!(
        transition.current.as_ref().map(|value| value.app.pid),
        Some(8)
    );
    assert_eq!(context.generation(), 2);
}

#[test]
fn chromium_profile_uses_the_bounds_resolved_window_on_activation() {
    let mut context = FocusContext::new();
    let chrome = ApplicationInfo {
        name: "Google Chrome".to_owned(),
        bundle_id: Some("com.google.Chrome".to_owned()),
        pid: 7,
        activation_policy: ApplicationActivationPolicy::Regular,
    };

    context.activate(chrome, Some(window(11, "Chromium")));

    let current = context.current().expect("Chromium focus");
    assert_eq!(current.window.and_then(|window| window.id), Some(11));
    assert_eq!(current.generation, 1);
}

#[test]
fn title_only_change_increments_generation() {
    let mut context = FocusContext::new();
    context.activate(app(7), Some(window(11, "First")));

    let transition = context
        .observe_window(7, window(11, "Renamed"))
        .expect("title transition");

    assert_eq!(
        transition
            .previous
            .as_ref()
            .and_then(|value| value.window.as_ref())
            .and_then(|value| value.title.as_deref()),
        Some("First")
    );
    assert_eq!(
        transition
            .current
            .as_ref()
            .and_then(|value| value.window.as_ref())
            .and_then(|value| value.title.as_deref()),
        Some("Renamed")
    );
    assert_eq!(context.generation(), 2);
}

#[test]
fn resync_always_increments_generation_and_publishes_the_current_identity() {
    let mut context = FocusContext::new();
    context.activate(app(7), Some(window(11, "First")));
    let transitions = context.subscribe();
    let before = context.current().expect("initial focus");

    let transition = context.resync(app(7), Some(window(11, "First")));

    assert_eq!(transition.previous.as_ref(), Some(&before));
    let identity = |snapshot: &FocusSnapshot| {
        (
            snapshot.app.pid,
            snapshot.window.as_ref().and_then(|window| window.id),
        )
    };
    assert_eq!(
        transition.previous.as_ref().map(identity),
        transition.current.as_ref().map(identity)
    );
    assert_eq!(
        transition
            .current
            .as_ref()
            .map(|current| current.generation),
        Some(before.generation + 1)
    );
    assert!(transition.resynced);
    assert_eq!(context.try_recv(&transitions), Ok(transition));
    assert_eq!(context.generation(), before.generation + 1);
}

#[test]
fn resync_without_focus_clears_stale_identity_and_publishes() {
    let mut context = FocusContext::new();
    context.activate(app(7), Some(window(11, "Before sleep")));
    let transitions = context.subscribe();

    let transition = context.resync_without_focus();

    assert!(transition.previous.is_some());
    assert!(transition.current.is_none());
    assert!(transition.resynced);
    assert_eq!(context.try_recv(&transitions), Ok(transition));
    assert!(context.current().is_none());
    assert_eq!(context.generation(), 2);
}

#[test]
fn non_frontmost_ax_notification_is_ignored() {
    let mut context = FocusContext::new();
    context.activate(app(7), Some(window(11, "First")));

    assert_eq!(context.observe_window(8, window(12, "Other")), None);
    assert_eq!(context.generation(), 1);
    assert_eq!(
        context
            .current()
            .and_then(|value| value.window)
            .and_then(|value| value.id),
        Some(11)
    );
}

#[test]
fn terminating_frontmost_application_clears_context() {
    let mut context = FocusContext::new();
    context.activate(app(7), Some(window(11, "First")));

    let transition = context.terminate(7).expect("termination transition");

    assert!(transition.current.is_none());
    assert!(context.current().is_none());
    assert_eq!(context.generation(), 2);
}

#[test]
fn focused_field_change_has_its_own_generation_and_no_transition() {
    let mut context = FocusContext::new();
    let transitions = context.subscribe();
    context.activate(app(7), Some(window(11, "First")));
    let _ = context.try_recv(&transitions).expect("activation transition");
    let focus_generation = context.generation();

    context.update_focused_field(
        7,
        Some(FocusedField {
            generation: 9,
            class: FieldClass::KnownText(FieldKind::Text),
        }),
    );

    assert_eq!(context.generation(), focus_generation);
    assert_eq!(context.try_recv(&transitions), Err(TryRecvError::Empty));
    let current = context.current().expect("focus snapshot");
    assert_eq!(current.focused_field.map(|field| field.generation), Some(9));
    assert_eq!(current.field_generation, 2);
}

#[test]
fn repeated_focus_is_no_transition() {
    let mut context = FocusContext::new();
    assert!(context.activate(app(7), Some(window(11, "First"))).is_some());
    assert_eq!(context.activate(app(7), Some(window(11, "First"))), None);
    assert_eq!(context.observe_window(7, window(11, "First")), None);
    assert_eq!(context.terminate(8), None);
    assert_eq!(context.generation(), 1);
}

#[test]
fn transitions_without_room_are_counted() {
    let mut context = FocusContext::new();
    let transitions = context.subscribe();
    for round in 0..=TRANSITION_CHANNEL_CAPACITY {
        let _ = context.resync(app(7), Some(window(round as i64, "Window")));
    }
    assert_eq!(context.dropped_transitions(), 1);
    assert!(context.try_recv(&transitions).is_ok());
}

#[test]
fn every_subscriber_gets_its_own_transitions() {
    let mut context = FocusContext::new();
    let first = context.subscribe();
    let second = context.subscribe();
    let transition = context.activate(app(7), None).expect("transition");
    assert_eq!(context.try_recv(&first), Ok(transition.clone()));
    assert_eq!(context.try_recv(&first), Err(TryRecvError::Empty));
    context.unsubscribe(first);
    assert_eq!(context.try_recv(&second), Ok(transition));
}

#[test]
fn field_of_another_process_is_ignored() {
    let mut context = FocusContext::new();
    context.activate(app(7), None);
    let before = context.field_generation();
    let field = FocusedField { generation: 3, class: FieldClass::KnownSafeNonText };
    context.update_focused_field(8, Some(field));
    assert_eq!(context.field_generation(), before);
    assert_eq!(context.current().and_then(|current| current.focused_field), None);
}
