//! Secure input: whatever is not known counts as secure.

use zanei_macos::secure_input::{
    secure_input_active, tap_secure_input, QueryOutcome, SecureInputMonitorError,
    SecureInputProbe, SecureInputProbeError,
};

#[test]
fn disconnected_monitor_fails_closed() {
    let probe = SecureInputProbe {};

    assert_eq!(probe.enabled(QueryOutcome::NotSent), Err(SecureInputProbeError::Disconnected));
    assert_eq!(probe.enabled(QueryOutcome::ReplyLost), Err(SecureInputProbeError::Disconnected));
}

#[test]
fn unresponsive_monitor_times_out_and_fails_closed() {
    let probe = SecureInputProbe {};

    assert_eq!(probe.enabled(QueryOutcome::TimedOut), Err(SecureInputProbeError::Timeout));
}

#[test]
fn answering_monitor_is_believed() {
    let probe = SecureInputProbe {};
    assert_eq!(probe.enabled(QueryOutcome::Replied(true)), Ok(true));
    assert_eq!(probe.enabled(QueryOutcome::Replied(false)), Ok(false));
}

#[test]
fn probe_is_asked_only_when_text_is_captured() {
    let mut degraded = 0;
    let unasked = || -> Result<bool, SecureInputProbeError> { panic!("nothing to protect") };
    assert!(!secure_input_active(false, Some(unasked), true, &mut degraded));
    assert!(!secure_input_active(true, Some(|| Ok(false)), true, &mut degraded));
    assert!(secure_input_active(true, Some(|| Ok(true)), true, &mut degraded));
    assert_eq!(degraded, 0);
}

#[test]
fn failing_or_missing_probe_counts_as_secure() {
    let mut degraded = 0;
    let failing = || Err(SecureInputProbeError::Timeout);
    assert!(secure_input_active(true, Some(failing), true, &mut degraded));
    assert_eq!(degraded, 1);
    let missing: Option<fn() -> Result<bool, SecureInputProbeError>> = None;
    assert!(secure_input_active(true, missing, true, &mut degraded));
    assert_eq!(degraded, 2);
    assert!(secure_input_active(true, missing, false, &mut degraded));
    assert_eq!(degraded, 2);
}

#[test]
fn probe_errors_have_names_and_messages() {
    assert_eq!(SecureInputProbeError::Disconnected.name(), "disconnected");
    assert_eq!(SecureInputProbeError::Timeout.name(), "timeout");
    assert_eq!(
        SecureInputProbeError::Disconnected.message(),
        "Secure Input monitor is unavailable"
    );
    assert_eq!(SecureInputProbeError::Timeout.message(), "Secure Input query timed out");
    let error = SecureInputMonitorError { source: "no thread".to_owned() };
    assert_eq!(error.message(), "failed to start the Secure Input monitor: no thread");
}

#[test]
fn tap_counts_no_failure() {
    let none: Option<fn() -> Result<bool, SecureInputProbeError>> = None;
    assert!(tap_secure_input(true, none));
    assert!(!tap_secure_input(false, none));
    assert!(tap_secure_input(true, Some(|| Err(SecureInputProbeError::Disconnected))));
    assert!(tap_secure_input(true, Some(|| Ok(true))));
    assert!(!tap_secure_input(true, Some(|| Ok(false))));
}
