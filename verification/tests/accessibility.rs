//! Manual accessibility and the health of the accessibility interface.

use zanei_macos::ax::accessibility::{
    manual_accessibility_setting, AccessibilityActivation, FilterAnswer, ManualAccessibilityPolicy,
    APPLICATION_ROLE_RECONCILE_DELAY,
};
use zanei_macos::ax::health::{AxFailurePhase, AxFailureState, AxRecoverySite};
use zanei_macos::clock::{Instant, SECOND};

#[test]
fn lifecycle_is_gated_by_text_capture() {
    assert_eq!(manual_accessibility_setting(false, true), None);
    assert_eq!(manual_accessibility_setting(false, false), None);
    assert_eq!(manual_accessibility_setting(true, true), Some(true));
    assert_eq!(manual_accessibility_setting(true, false), Some(false));
}

#[test]
fn application_role_reconcile_deadline_is_consumed_once() {
    let now = Instant::from_nanos(100 * SECOND);
    let mut activation = AccessibilityActivation::default();

    activation.schedule_reconcile(now);

    assert!(!activation.take_due(now.after(APPLICATION_ROLE_RECONCILE_DELAY / 2)));
    assert!(activation.take_due(now.after(APPLICATION_ROLE_RECONCILE_DELAY)));
    assert!(!activation.take_due(now.after(APPLICATION_ROLE_RECONCILE_DELAY * 2)));
}

/// What a filter answers whose scopes each admit one application only.
fn answer(bundle_id: &str) -> Option<FilterAnswer> {
    Some(FilterAnswer {
        text_content: bundle_id == "dev.example.Text",
        content_snapshot: bundle_id == "dev.example.Snapshot",
    })
}

#[test]
fn either_enabled_scope_can_request_manual_accessibility() {
    let policy = ManualAccessibilityPolicy::new(true, true);

    assert!(policy.allows(answer("dev.example.Text")));
    assert!(policy.allows(answer("dev.example.Snapshot")));
    assert!(!policy.allows(answer("dev.example.Other")));
}

#[test]
fn disabled_opt_ins_and_poisoned_filter_fail_closed() {
    let admitting = Some(FilterAnswer { text_content: true, content_snapshot: true });
    assert!(!ManualAccessibilityPolicy::new(false, false).allows(admitting));
    assert!(!ManualAccessibilityPolicy::new(true, true).allows(None));
}

#[test]
fn replacement_changes_the_decision_used_by_the_next_attach() {
    let mut policy = ManualAccessibilityPolicy::new(true, false);
    assert!(policy.allows(Some(FilterAnswer { text_content: true, content_snapshot: true })));
    let before = policy.generation();

    policy.replace_filter(true);

    assert_ne!(policy.generation(), before);
    assert!(!policy.allows(Some(FilterAnswer { text_content: false, content_snapshot: true })));
}

#[test]
fn recovery_clears_only_the_failure_of_its_site() {
    let mut state = AxFailureState { current: None };
    state.record(AxRecoverySite::ApplicationRole);
    state.recover(AxRecoverySite::SecureInputPoll);
    assert_eq!(
        state.current().map(|failure| (failure.site, failure.phase)),
        Some((AxRecoverySite::ApplicationRole, AxFailurePhase::Observer))
    );
    state.recover(AxRecoverySite::ApplicationRole);
    assert!(state.current().is_none());
    assert_eq!(AxRecoverySite::SecureInputDecode.phase(), AxFailurePhase::SecureInput);
}
