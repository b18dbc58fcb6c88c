//! Authorized typing and the values that it accounts for.

use zanei_macos::clock::{Instant, MILLISECOND};
use zanei_macos::focused_field::FieldClass;
use zanei_macos::schema::FieldKind;
use zanei_macos::text_capture::authorization::{
    input_authorization_channel, AuthorizationState, InputAuthorizations,
    AUTHORIZATION_QUEUE_CAPACITY, INPUT_WINDOW,
};
use zanei_macos::text_capture::focused_target::FocusedTarget;
use zanei_macos::text_capture::value::{
    FocusChangeCapture, ValueCapture, ValueEmission, ValueObservation, VALUE_DEBOUNCE,
    VALUE_MAX_HOLD,
};

const NOW: u64 = 1_000_000_000_000;

fn start() -> Instant {
    Instant::from_nanos(NOW)
}

fn ms(millis: u64) -> u64 {
    millis * MILLISECOND
}

#[derive(Debug, PartialEq, Eq)]
struct Sent {
    element_value: Option<String>,
    value_len: Option<u64>,
    text: Option<String>,
}

/// What was inserted between the common start and the common end of two values.
fn inserted(before: &str, after: &str) -> Option<String> {
    let before: Vec<char> = before.chars().collect();
    let after: Vec<char> = after.chars().collect();
    let shorter = before.len().min(after.len());
    let mut prefix = 0;
    while prefix < shorter && before[prefix] == after[prefix] {
        prefix += 1;
    }
    let mut suffix = 0;
    while suffix < shorter - prefix
        && before[before.len() - 1 - suffix] == after[after.len() - 1 - suffix]
    {
        suffix += 1;
    }
    let middle: String = after[prefix..after.len() - suffix].iter().collect();
    if middle.is_empty() {
        None
    } else {
        Some(middle)
    }
}

fn sent_one(emission: ValueEmission) -> Sent {
    let difference =
        emission.change.as_ref().and_then(|change| inserted(&change.before, &change.after));
    let text = emission.text(difference);
    Sent { element_value: emission.element_value, value_len: emission.value_len, text }
}

fn sent(emission: Option<ValueEmission>) -> Option<Sent> {
    emission.map(sent_one)
}

fn observation(pid: i32, generation: u64, at: Instant, value: &str) -> ValueObservation {
    ValueObservation {
        pid,
        target_generation: generation,
        notification_at: at,
        value: Some(value.to_owned()),
        value_len: u64::try_from(value.chars().count()).ok(),
        field_class: FieldClass::KnownText(FieldKind::Text),
        capture_decision: None,
    }
}

fn authorized_capture(
    pid: i32,
    generation: u64,
    input_at: Instant,
    baseline: &str,
) -> (ValueCapture, InputAuthorizations) {
    let (publisher, mut authorizations) = input_authorization_channel();
    let authorization = publisher
        .prepare(&mut authorizations, pid, generation, input_at)
        .expect("authorization channel should accept the reservation");
    authorization.confirm(&mut authorizations);
    (
        ValueCapture::new(
            true,
            Some(baseline.to_owned()),
            FieldClass::KnownText(FieldKind::Text),
        ),
        authorizations,
    )
}

fn has_window(
    authorizations: &mut InputAuthorizations,
    pid: i32,
    generation: u64,
    at: Instant,
) -> bool {
    authorizations.matching(pid, generation, at).is_some()
}

#[test]
fn registration_failure_clears_target_and_advances_generation() {
    let mut target = FocusedTarget::new();
    let previous = target
        .transition::<()>(Ok(Some("old")))
        .expect("initial registration should succeed");
    assert_eq!(previous, None);
    assert_eq!(target.generation(), 1);

    let result = target.transition::<&str>(Err("registration failed"));

    assert_eq!(result, Err((Some("old"), "registration failed")));
    assert_eq!(target.current(), None);
    assert_eq!(target.generation(), 2);
}

#[test]
fn unauthorized_transition_advances_baseline_inside_debounce_window() {
    let now = start();
    let (_unused_publisher, mut authorizations) = input_authorization_channel();
    let mut capture = ValueCapture::new(
        true,
        Some("A".to_owned()),
        FieldClass::KnownText(FieldKind::Text),
    );
    assert_eq!(
        sent(capture.observe(observation(7, 1, now, "A secret"), &mut authorizations)),
        None
    );

    let (publisher, mut next_authorizations) = input_authorization_channel();
    let authorization = publisher
        .prepare(&mut next_authorizations, 7, 1, now.after(ms(10)))
        .expect("authorization channel should accept the reservation");
    authorization.confirm(&mut next_authorizations);
    assert_eq!(
        sent(capture.observe(
            observation(7, 1, now.after(ms(20)), "A secretx"),
            &mut next_authorizations,
        )),
        None
    );
    assert_eq!(
        sent(capture.take_due(
            now.after(VALUE_DEBOUNCE + ms(20)),
            &mut next_authorizations
        )),
        Some(Sent {
            element_value: None,
            value_len: Some(9),
            text: Some("x".to_owned()),
        })
    );
}

#[test]
fn rejected_pending_value_is_not_backfilled_by_the_next_authorization() {
    let now = start();
    let (publisher, mut authorizations) = input_authorization_channel();
    let first = publisher
        .prepare(&mut authorizations, 7, 1, now)
        .expect("authorization channel should accept the first reservation");
    let mut capture = ValueCapture::new(
        true,
        Some("A".to_owned()),
        FieldClass::KnownText(FieldKind::Text),
    );
    let _ = capture.observe(observation(7, 1, now, "A secret"), &mut authorizations);
    first.reject(&mut authorizations);
    let second = publisher
        .prepare(&mut authorizations, 7, 1, now.after(ms(10)))
        .expect("authorization channel should accept the second reservation");
    second.confirm(&mut authorizations);

    let _ = capture.observe(
        observation(7, 1, now.after(ms(20)), "A secretx"),
        &mut authorizations,
    );

    assert_eq!(
        sent(capture.take_due(
            now.after(VALUE_DEBOUNCE + ms(20)),
            &mut authorizations,
        )),
        Some(Sent {
            element_value: None,
            value_len: Some(9),
            text: Some("x".to_owned()),
        })
    );
}

#[test]
fn late_confirmation_before_debounce_preserves_the_complete_delta() {
    let now = start();
    let (publisher, mut authorizations) = input_authorization_channel();
    let first = publisher
        .prepare(&mut authorizations, 7, 1, now)
        .expect("authorization channel should accept the first reservation");
    let mut capture = ValueCapture::new(
        true,
        Some("A".to_owned()),
        FieldClass::KnownText(FieldKind::Text),
    );
    let _ = capture.observe(observation(7, 1, now, "A secret"), &mut authorizations);
    let second = publisher
        .prepare(&mut authorizations, 7, 1, now.after(ms(10)))
        .expect("authorization channel should accept the second reservation");
    second.confirm(&mut authorizations);

    let _ = capture.observe(
        observation(7, 1, now.after(ms(20)), "A secretx"),
        &mut authorizations,
    );
    first.confirm(&mut authorizations);

    assert_eq!(
        sent(capture.take_due(
            now.after(VALUE_DEBOUNCE + ms(20)),
            &mut authorizations,
        )),
        Some(Sent {
            element_value: None,
            value_len: Some(9),
            text: Some(" secretx".to_owned()),
        })
    );
}

#[test]
fn confirmed_windows_coalesce_and_remain_available_until_expiry() {
    let now = start();
    let (publisher, mut authorizations) = input_authorization_channel();
    let first = publisher
        .prepare(&mut authorizations, 7, 1, now)
        .expect("authorization channel should accept the first reservation");
    first.confirm(&mut authorizations);
    let mut capture = ValueCapture::new(
        true,
        Some("A".to_owned()),
        FieldClass::KnownText(FieldKind::Text),
    );
    let _ = capture.observe(observation(7, 1, now, "A secret"), &mut authorizations);
    let second = publisher
        .prepare(&mut authorizations, 7, 1, now.after(ms(10)))
        .expect("authorization channel should accept the second reservation");
    second.confirm(&mut authorizations);
    let _ = capture.observe(
        observation(7, 1, now.after(ms(20)), "A secretx"),
        &mut authorizations,
    );

    assert_eq!(
        sent(capture.take_due(
            now.after(VALUE_DEBOUNCE + ms(20)),
            &mut authorizations,
        )),
        Some(Sent {
            element_value: None,
            value_len: Some(9),
            text: Some(" secretx".to_owned()),
        })
    );

    let third_at = now.after(VALUE_DEBOUNCE + ms(30));
    let _ = capture.observe(
        observation(7, 1, third_at, "A secretxy"),
        &mut authorizations,
    );
    assert_eq!(
        sent(capture.take_due(third_at.after(VALUE_DEBOUNCE), &mut authorizations)),
        Some(Sent {
            element_value: None,
            value_len: Some(10),
            text: Some("y".to_owned()),
        })
    );
}

#[test]
fn rejected_keystroke_does_not_close_a_confirmed_window() {
    let now = start();
    let (publisher, mut authorizations) = input_authorization_channel();
    let first = publisher
        .prepare(&mut authorizations, 7, 1, now)
        .expect("authorization channel should accept the first reservation");
    first.confirm(&mut authorizations);
    let mut capture = ValueCapture::new(
        true,
        Some("A".to_owned()),
        FieldClass::KnownText(FieldKind::Text),
    );
    let _ = capture.observe(observation(7, 1, now, "Ax"), &mut authorizations);
    let second = publisher
        .prepare(&mut authorizations, 7, 1, now.after(ms(10)))
        .expect("authorization channel should accept the second reservation");
    second.reject(&mut authorizations);
    let _ = capture.observe(
        observation(7, 1, now.after(ms(20)), "Ax secret"),
        &mut authorizations,
    );

    assert_eq!(
        sent(capture.take_due(
            now.after(VALUE_DEBOUNCE + ms(20)),
            &mut authorizations,
        )),
        Some(Sent {
            element_value: None,
            value_len: Some(9),
            text: Some("x secret".to_owned()),
        })
    );
}

#[test]
fn one_confirmed_keystroke_authorizes_multiple_observations_within_its_window() {
    let now = start();
    let (publisher, mut authorizations) = input_authorization_channel();
    let authorization = publisher
        .prepare(&mut authorizations, 7, 1, now)
        .expect("authorization channel should accept the reservation");
    authorization.confirm(&mut authorizations);
    let mut capture = ValueCapture::new(
        true,
        Some("A".to_owned()),
        FieldClass::KnownText(FieldKind::Text),
    );
    let _ = capture.observe(observation(7, 1, now, "Ab"), &mut authorizations);

    assert_eq!(
        sent(capture.take_due(now.after(VALUE_DEBOUNCE), &mut authorizations)),
        Some(Sent {
            element_value: None,
            value_len: Some(2),
            text: Some("b".to_owned()),
        })
    );

    let second_at = now.after(VALUE_DEBOUNCE + ms(10));
    let _ = capture.observe(observation(7, 1, second_at, "Abc"), &mut authorizations);

    assert_eq!(
        sent(capture.take_due(second_at.after(VALUE_DEBOUNCE), &mut authorizations)),
        Some(Sent {
            element_value: None,
            value_len: Some(3),
            text: Some("c".to_owned()),
        })
    );
}

#[test]
fn one_confirmed_keystroke_authorizes_multiple_observations_in_one_batch() {
    let now = start();
    let (publisher, mut authorizations) = input_authorization_channel();
    let authorization = publisher
        .prepare(&mut authorizations, 7, 1, now)
        .expect("authorization channel should accept the reservation");
    authorization.confirm(&mut authorizations);
    let mut capture = ValueCapture::new(
        true,
        Some("A".to_owned()),
        FieldClass::KnownText(FieldKind::Text),
    );
    let _ = capture.observe(observation(7, 1, now, "Ab"), &mut authorizations);
    let second_at = now.after(ms(10));
    let _ = capture.observe(observation(7, 1, second_at, "Abc"), &mut authorizations);

    assert_eq!(
        sent(capture.take_due(second_at.after(VALUE_DEBOUNCE), &mut authorizations)),
        Some(Sent {
            element_value: None,
            value_len: Some(3),
            text: Some("bc".to_owned()),
        })
    );
}

#[test]
fn rejected_attempt_does_not_close_a_confirmed_window() {
    let now = start();
    let (publisher, mut authorizations) = input_authorization_channel();
    let first = publisher
        .prepare(&mut authorizations, 7, 1, now)
        .expect("authorization channel should accept the reservation");
    first.confirm(&mut authorizations);
    publisher
        .reject_attempt(&mut authorizations, Some(7), now)
        .expect("authorization channel should accept the barrier");

    assert!(has_window(&mut authorizations, 7, 1, now));
}

#[test]
fn matching_does_not_retire_confirmed_windows() {
    let now = start();
    let (publisher, mut authorizations) = input_authorization_channel();
    let first = publisher
        .prepare(&mut authorizations, 7, 1, now)
        .expect("authorization channel should accept the first reservation");
    first.confirm(&mut authorizations);
    let second = publisher
        .prepare(&mut authorizations, 7, 1, now.after(ms(10)))
        .expect("authorization channel should accept the second reservation");
    second.confirm(&mut authorizations);
    let mut capture = ValueCapture::new(
        true,
        Some("A".to_owned()),
        FieldClass::KnownText(FieldKind::Text),
    );
    let _ = capture.observe(
        observation(7, 1, now.after(ms(20)), "Ax"),
        &mut authorizations,
    );
    assert_eq!(
        sent(capture.take_due(
            now.after(VALUE_DEBOUNCE + ms(20)),
            &mut authorizations,
        )),
        Some(Sent {
            element_value: None,
            value_len: Some(2),
            text: Some("x".to_owned()),
        })
    );

    let next_at = now.after(VALUE_DEBOUNCE + ms(30));
    let _ = capture.observe(observation(7, 1, next_at, "Axy"), &mut authorizations);
    assert_eq!(
        sent(capture.take_due(next_at.after(VALUE_DEBOUNCE), &mut authorizations)),
        Some(Sent {
            element_value: None,
            value_len: Some(3),
            text: Some("y".to_owned()),
        })
    );
}

#[test]
fn failed_queue_publish_clears_previous_reservations() {
    let now = start();
    let (publisher, mut authorizations) = input_authorization_channel();
    let first = publisher
        .prepare(&mut authorizations, 7, 1, now)
        .expect("authorization queue should accept the first keystroke");
    first.confirm(&mut authorizations);
    for sequence in 1..AUTHORIZATION_QUEUE_CAPACITY {
        publisher
            .prepare(&mut authorizations, 7, 1, now.after((sequence as u64)))
            .expect("authorization queue should have capacity");
    }
    assert!(publisher.reject_attempt(&mut authorizations, Some(7), now).is_err());

    assert!(!has_window(&mut authorizations, 7, 1, now.after(ms(1))));
}

#[test]
fn queue_integrity_loss_before_flush_invalidates_a_matched_window() {
    let now = start();
    let (publisher, mut authorizations) = input_authorization_channel();
    let first = publisher
        .prepare(&mut authorizations, 7, 1, now)
        .expect("authorization channel should accept the first keystroke");
    first.confirm(&mut authorizations);
    let mut capture = ValueCapture::new(
        true,
        Some("A".to_owned()),
        FieldClass::KnownText(FieldKind::Text),
    );
    assert_eq!(
        sent(capture.observe(observation(7, 1, now, "Ax"), &mut authorizations)),
        None
    );

    for sequence in 0..AUTHORIZATION_QUEUE_CAPACITY {
        publisher
            .prepare(&mut authorizations, 7, 1, now.after((sequence as u64 + 1)))
            .expect("authorization queue should have capacity");
    }
    assert!(publisher.reject_attempt(&mut authorizations, Some(7), now).is_err());

    assert_eq!(
        sent(capture.take_due(now.after(VALUE_DEBOUNCE), &mut authorizations)),
        Some(Sent {
            element_value: None,
            value_len: Some(2),
            text: None,
        })
    );
}

#[test]
fn authorization_requires_matching_pid() {
    let now = start();
    let (mut capture, mut authorizations) = authorized_capture(8, 1, now, "A");
    let _ = capture.observe(observation(7, 1, now, "Ax"), &mut authorizations);
    assert_eq!(
        sent(capture.take_due(now.after(VALUE_DEBOUNCE), &mut authorizations)),
        Some(Sent {
            element_value: None,
            value_len: Some(2),
            text: None,
        })
    );
}

#[test]
fn authorization_requires_matching_target_generation() {
    let now = start();
    let (mut capture, mut authorizations) = authorized_capture(7, 1, now, "A");
    let _ = capture.observe(observation(7, 2, now, "Ax"), &mut authorizations);
    assert_eq!(
        sent(capture.take_due(now.after(VALUE_DEBOUNCE), &mut authorizations)),
        Some(Sent {
            element_value: None,
            value_len: Some(2),
            text: None,
        })
    );
}

#[test]
fn authorization_expires_after_three_seconds() {
    let now = start();
    let (mut capture, mut authorizations) = authorized_capture(7, 1, now, "A");
    let _ = capture.observe(
        observation(7, 1, now.after(INPUT_WINDOW + (1)), "Ax"),
        &mut authorizations,
    );
    assert_eq!(
        sent(capture.take_due(
            now.after(INPUT_WINDOW + VALUE_DEBOUNCE + (1)),
            &mut authorizations,
        )),
        Some(Sent {
            element_value: None,
            value_len: Some(2),
            text: None,
        })
    );
}

#[test]
fn authorization_is_valid_at_three_second_boundary() {
    let now = start();
    let (mut capture, mut authorizations) = authorized_capture(7, 1, now, "A");
    let _ = capture.observe(
        observation(7, 1, now.after(INPUT_WINDOW), "Ax"),
        &mut authorizations,
    );

    assert_eq!(
        sent(capture.take_due(now.after(INPUT_WINDOW + VALUE_DEBOUNCE), &mut authorizations)),
        Some(Sent {
            element_value: None,
            value_len: Some(2),
            text: Some("x".to_owned()),
        })
    );
}

#[test]
fn confirmed_window_survives_an_emission() {
    let now = start();
    let (mut capture, mut authorizations) = authorized_capture(7, 1, now, "A");
    let _ = capture.observe(observation(7, 1, now, "Ax"), &mut authorizations);
    assert!(
        capture
            .take_due(now.after(VALUE_DEBOUNCE), &mut authorizations)
            .is_some()
    );
    let _ = capture.observe(
        observation(7, 1, now.after(VALUE_DEBOUNCE), "Axy"),
        &mut authorizations,
    );
    assert_eq!(
        sent(capture.take_due(now.after(VALUE_DEBOUNCE * 2), &mut authorizations)),
        Some(Sent {
            element_value: None,
            value_len: Some(3),
            text: Some("y".to_owned()),
        })
    );
}

#[test]
fn late_worker_confirmation_authorizes_the_observed_value() {
    let now = start();
    let (publisher, mut authorizations) = input_authorization_channel();
    let authorization = publisher
        .prepare(&mut authorizations, 7, 1, now)
        .expect("authorization channel should accept the reservation");
    let mut capture = ValueCapture::new(
        true,
        Some("A".to_owned()),
        FieldClass::KnownText(FieldKind::Text),
    );

    let _ = capture.observe(
        observation(7, 1, now.after(ms(10)), "Ax"),
        &mut authorizations,
    );
    authorization.confirm(&mut authorizations);

    assert_eq!(
        sent(capture.take_due(
            now.after(VALUE_DEBOUNCE + ms(10)),
            &mut authorizations,
        )),
        Some(Sent {
            element_value: None,
            value_len: Some(2),
            text: Some("x".to_owned()),
        })
    );
}

#[test]
fn focus_change_defers_duplicate_value_until_late_confirmation() {
    let now = start();
    let (publisher, mut authorizations) = input_authorization_channel();
    let authorization = publisher
        .prepare(&mut authorizations, 7, 1, now)
        .expect("authorization channel should accept the reservation");
    let mut capture = ValueCapture::new(
        true,
        Some("A".to_owned()),
        FieldClass::KnownText(FieldKind::Text),
    );
    let observed_at = now.after(ms(10));
    let _ = capture.observe(observation(7, 1, observed_at, "Ax"), &mut authorizations);

    assert!(matches!(
        capture.resolve_focus_change(
            observation(7, 1, observed_at.after(ms(10)), "Ax"),
            &mut authorizations,
        ),
        FocusChangeCapture::Defer
    ));
    authorization.confirm(&mut authorizations);

    assert_eq!(
        sent(capture.take_due(observed_at.after(VALUE_DEBOUNCE), &mut authorizations)),
        Some(Sent {
            element_value: None,
            value_len: Some(2),
            text: Some("x".to_owned()),
        })
    );
}

#[test]
fn deferred_focus_change_fails_closed_after_worker_rejection() {
    let now = start();
    let (publisher, mut authorizations) = input_authorization_channel();
    let authorization = publisher
        .prepare(&mut authorizations, 7, 1, now)
        .expect("authorization channel should accept the reservation");
    let mut capture = ValueCapture::new(
        true,
        Some("A".to_owned()),
        FieldClass::KnownText(FieldKind::Text),
    );
    let _ = capture.observe(observation(7, 1, now, "Ax"), &mut authorizations);
    assert!(matches!(
        capture.resolve_focus_change(observation(7, 1, now, "Ax"), &mut authorizations),
        FocusChangeCapture::Defer
    ));
    authorization.reject(&mut authorizations);

    assert_eq!(
        sent(capture.take_due(now.after(VALUE_DEBOUNCE), &mut authorizations)),
        Some(Sent {
            element_value: None,
            value_len: Some(2),
            text: None,
        })
    );
}

#[test]
fn confirmed_focus_change_flushes_duplicate_value_immediately() {
    let now = start();
    let (publisher, mut authorizations) = input_authorization_channel();
    let authorization = publisher
        .prepare(&mut authorizations, 7, 1, now)
        .expect("authorization channel should accept the reservation");
    authorization.confirm(&mut authorizations);
    let mut capture = ValueCapture::new(
        true,
        Some("A".to_owned()),
        FieldClass::KnownText(FieldKind::Text),
    );
    let _ = capture.observe(observation(7, 1, now, "Ax"), &mut authorizations);

    let FocusChangeCapture::Emit(emission) =
        capture.resolve_focus_change(observation(7, 1, now, "Ax"), &mut authorizations)
    else {
        panic!("confirmed authorization should flush immediately");
    };
    assert_eq!(
        sent(emission),
        Some(Sent {
            element_value: None,
            value_len: Some(2),
            text: Some("x".to_owned()),
        })
    );
}

#[test]
fn changed_focus_snapshot_defers_the_latest_pending_reservation() {
    let now = start();
    let (publisher, mut authorizations) = input_authorization_channel();
    let first = publisher
        .prepare(&mut authorizations, 7, 1, now)
        .expect("authorization channel should accept the first reservation");
    let mut capture = ValueCapture::new(
        true,
        Some("A".to_owned()),
        FieldClass::KnownText(FieldKind::Text),
    );
    let _ = capture.observe(observation(7, 1, now, "Ax"), &mut authorizations);
    let second = publisher
        .prepare(&mut authorizations, 7, 1, now.after(ms(10)))
        .expect("authorization channel should accept the second reservation");

    assert!(matches!(
        capture.resolve_focus_change(
            observation(7, 1, now.after(ms(20)), "Axy"),
            &mut authorizations,
        ),
        FocusChangeCapture::Defer
    ));
    first.confirm(&mut authorizations);
    second.confirm(&mut authorizations);

    assert_eq!(
        sent(capture.take_due(
            now.after(VALUE_DEBOUNCE + ms(20)),
            &mut authorizations,
        )),
        Some(Sent {
            element_value: None,
            value_len: Some(3),
            text: Some("xy".to_owned()),
        })
    );
}

#[test]
fn window_matching_ignores_inputs_newer_than_the_notification() {
    let now = start();
    let (publisher, mut authorizations) = input_authorization_channel();
    let first = publisher
        .prepare(&mut authorizations, 7, 1, now)
        .expect("authorization channel should accept the first reservation");
    first.confirm(&mut authorizations);
    let second_at = now.after(ms(20));
    let second = publisher
        .prepare(&mut authorizations, 7, 1, second_at)
        .expect("authorization channel should accept the second reservation");
    second.confirm(&mut authorizations);

    assert!(has_window(&mut authorizations, 7, 1, now.after(ms(10))));
    assert!(has_window(&mut authorizations, 7, 1, now.after(ms(30))));
}

#[test]
fn confirmed_keys_without_ax_observations_cannot_create_ui_value_events() {
    let now = start();
    let (publisher, mut authorizations) = input_authorization_channel();
    let authorization = publisher
        .prepare(&mut authorizations, 7, 1, now)
        .expect("authorization channel should accept the reservation");
    authorization.confirm(&mut authorizations);
    let mut capture = ValueCapture::new(
        true,
        Some("A".to_owned()),
        FieldClass::KnownText(FieldKind::Text),
    );

    assert_eq!(
        sent(capture.take_due(now.after(ms(3_700)), &mut authorizations)),
        None
    );
}

#[test]
fn rejected_attempts_do_not_close_a_confirmed_window() {
    let now = start();
    let cases = [(Some(7), 20_u64), (Some(8), 5_u64)];

    for (rejected_pid, rejected_at_ms) in cases {
        let (publisher, mut authorizations) = input_authorization_channel();
        let authorization = publisher
            .prepare(&mut authorizations, 7, 1, now)
            .expect("authorization channel should accept the reservation");
        authorization.confirm(&mut authorizations);
        publisher
            .reject_attempt(&mut authorizations, rejected_pid, now.after(ms(rejected_at_ms)))
            .expect("authorization channel should accept the rejected input");

        assert!(
            has_window(&mut authorizations, 7, 1, now.after(ms(10))),
            "rejected_pid={rejected_pid:?} rejected_at_ms={rejected_at_ms}"
        );
    }
}

#[test]
fn trace_shaped_window_cases_preserve_only_authorized_deltas() {
    enum Step {
        Reserve {
            at_ms: u64,
            generation: u64,
        },
        Confirm(usize),
        Reject(usize),
        RejectAttempt {
            at_ms: u64,
            pid: Option<i32>,
        },
        Observe {
            at_ms: u64,
            generation: u64,
            value: &'static str,
        },
    }

    struct Case {
        name: &'static str,
        baseline: Option<&'static str>,
        steps: Vec<Step>,
        flush_at_ms: u64,
        expected: Sent,
    }

    let cases = [
        Case {
            name: "multiple_observations_share_each_confirmed_window",
            baseline: Some("A"),
            steps: vec![
                Step::Reserve {
                    at_ms: 0,
                    generation: 1,
                },
                Step::Confirm(0),
                Step::Observe {
                    at_ms: 50,
                    generation: 1,
                    value: "Ab",
                },
                Step::Observe {
                    at_ms: 100,
                    generation: 1,
                    value: "Abc",
                },
                Step::Reserve {
                    at_ms: 200,
                    generation: 1,
                },
                Step::Confirm(1),
                Step::Observe {
                    at_ms: 150,
                    generation: 1,
                    value: "Abcd",
                },
                Step::Observe {
                    at_ms: 250,
                    generation: 1,
                    value: "Abcde",
                },
                Step::Observe {
                    at_ms: 300,
                    generation: 1,
                    value: "Abcdef",
                },
            ],
            flush_at_ms: 1_300,
            expected: Sent {
                element_value: None,
                value_len: Some(6),
                text: Some("bcdef".to_owned()),
            },
        },
        Case {
            name: "worker_confirms_after_ax_observations",
            baseline: Some("A"),
            steps: vec![
                Step::Reserve {
                    at_ms: 0,
                    generation: 1,
                },
                Step::Observe {
                    at_ms: 10,
                    generation: 1,
                    value: "Ab",
                },
                Step::Reserve {
                    at_ms: 20,
                    generation: 1,
                },
                Step::Observe {
                    at_ms: 30,
                    generation: 1,
                    value: "Abc",
                },
                Step::Confirm(0),
                Step::Confirm(1),
            ],
            flush_at_ms: 1_030,
            expected: Sent {
                element_value: None,
                value_len: Some(3),
                text: Some("bc".to_owned()),
            },
        },
        Case {
            name: "rejected_worker_keystroke_is_a_privacy_boundary",
            baseline: Some("A"),
            steps: vec![
                Step::Reserve {
                    at_ms: 0,
                    generation: 1,
                },
                Step::Observe {
                    at_ms: 10,
                    generation: 1,
                    value: "A private",
                },
                Step::Reject(0),
                Step::Reserve {
                    at_ms: 20,
                    generation: 1,
                },
                Step::Confirm(1),
                Step::Observe {
                    at_ms: 30,
                    generation: 1,
                    value: "A privatex",
                },
            ],
            flush_at_ms: 1_030,
            expected: Sent {
                element_value: None,
                value_len: Some(10),
                text: Some("x".to_owned()),
            },
        },
        Case {
            name: "invalid_target_attempt_does_not_open_a_window",
            baseline: Some("A"),
            steps: vec![
                Step::RejectAttempt {
                    at_ms: 0,
                    pid: Some(7),
                },
                Step::Observe {
                    at_ms: 100,
                    generation: 1,
                    value: "Ax",
                },
            ],
            flush_at_ms: 1_100,
            expected: Sent {
                element_value: None,
                value_len: Some(2),
                text: None,
            },
        },
        Case {
            name: "outside_window_observation_advances_the_privacy_baseline",
            baseline: Some("A"),
            steps: vec![
                Step::Reserve {
                    at_ms: 0,
                    generation: 1,
                },
                Step::Confirm(0),
                Step::Observe {
                    at_ms: 100,
                    generation: 1,
                    value: "Ab",
                },
                Step::Observe {
                    at_ms: 600,
                    generation: 1,
                    value: "Ab",
                },
                Step::Observe {
                    at_ms: 1_100,
                    generation: 1,
                    value: "Ab",
                },
                Step::Observe {
                    at_ms: 1_600,
                    generation: 1,
                    value: "Ab",
                },
                Step::Observe {
                    at_ms: 2_100,
                    generation: 1,
                    value: "Ab",
                },
                Step::Observe {
                    at_ms: 2_600,
                    generation: 1,
                    value: "Ab",
                },
                Step::Observe {
                    at_ms: 3_001,
                    generation: 1,
                    value: "Ab private",
                },
                Step::Reserve {
                    at_ms: 3_100,
                    generation: 1,
                },
                Step::Confirm(1),
                Step::Observe {
                    at_ms: 3_200,
                    generation: 1,
                    value: "Ab privatez",
                },
            ],
            flush_at_ms: 4_200,
            expected: Sent {
                element_value: None,
                value_len: Some(11),
                text: Some("z".to_owned()),
            },
        },
        Case {
            name: "observation_after_three_seconds_is_unauthorized",
            baseline: Some("A"),
            steps: vec![
                Step::Reserve {
                    at_ms: 0,
                    generation: 1,
                },
                Step::Confirm(0),
                Step::Observe {
                    at_ms: 3_001,
                    generation: 1,
                    value: "Ax",
                },
            ],
            flush_at_ms: 4_001,
            expected: Sent {
                element_value: None,
                value_len: Some(2),
                text: None,
            },
        },
        Case {
            name: "generation_mismatch_still_emits_metadata",
            baseline: Some("A"),
            steps: vec![
                Step::Reserve {
                    at_ms: 0,
                    generation: 1,
                },
                Step::Confirm(0),
                Step::Observe {
                    at_ms: 10,
                    generation: 2,
                    value: "Ab",
                },
            ],
            flush_at_ms: 1_010,
            expected: Sent {
                element_value: None,
                value_len: Some(2),
                text: None,
            },
        },
    ];

    for case in cases {
        let now = start();
        let (publisher, mut authorizations) = input_authorization_channel();
        let mut capture = ValueCapture::new(
            true,
            case.baseline.map(str::to_owned),
            FieldClass::KnownText(FieldKind::Text),
        );
        let mut reservations = Vec::new();
        for step in case.steps {
            match step {
                Step::Reserve { at_ms, generation } => reservations.push(
                    publisher
                        .prepare(&mut authorizations, 7, generation, now.after(ms(at_ms)))
                        .expect("authorization channel should accept the reservation"),
                ),
                Step::Confirm(index) => reservations[index].confirm(&mut authorizations),
                Step::Reject(index) => reservations[index].reject(&mut authorizations),
                Step::RejectAttempt { at_ms, pid } => publisher
                    .reject_attempt(&mut authorizations, pid, now.after(ms(at_ms)))
                    .expect("authorization channel should accept the rejected attempt"),
                Step::Observe {
                    at_ms,
                    generation,
                    value,
                } => {
                    assert_eq!(
                        sent(capture.observe(
                            observation(7, generation, now.after(ms(at_ms)), value),
                            &mut authorizations,
                        )),
                        None,
                        "{} at {at_ms}ms",
                        case.name
                    );
                }
            }
        }

        assert_eq!(
            sent(capture.take_due(
                now.after(ms(case.flush_at_ms)),
                &mut authorizations,
            )),
            Some(case.expected),
            "{}",
            case.name
        );
    }
}

#[test]
fn continuous_trace_shaped_input_flushes_every_five_seconds_without_delta_loss() {
    const TYPING_DURATION_MS: u64 = 30_000;
    const KEY_INTERVAL_MS: u64 = 500;
    const OBSERVATION_OFFSETS_MS: &[&[u64]] = &[&[100, 300], &[100, 200, 400]];

    let now = start();
    let (publisher, mut authorizations) = input_authorization_channel();
    let mut capture = ValueCapture::new(
        true,
        Some("A".to_owned()),
        FieldClass::KnownText(FieldKind::Text),
    );
    let mut current_value = "A".to_owned();
    let mut emitted_text = String::new();
    let mut flush_times_ms = Vec::new();

    for key_index in 0..(TYPING_DURATION_MS / KEY_INTERVAL_MS) {
        let input_at_ms = key_index * KEY_INTERVAL_MS;
        let authorization = publisher
            .prepare(&mut authorizations, 7, 1, now.after(ms(input_at_ms)))
            .expect("authorization channel should accept the reservation");
        authorization.confirm(&mut authorizations);
        for offset_ms in OBSERVATION_OFFSETS_MS[key_index as usize % 2] {
            let observed_at_ms = input_at_ms + offset_ms;
            current_value.push('x');
            if let Some(emission) = capture.observe(
                observation(
                    7,
                    1,
                    now.after(ms(observed_at_ms)),
                    &current_value,
                ),
                &mut authorizations,
            ) {
                flush_times_ms.push(observed_at_ms);
                emitted_text.push_str(
                    sent_one(emission)
                        .text
                        .as_deref()
                        .expect("every trace-shaped batch should be authorized"),
                );
            }
        }
    }

    let final_flush_at_ms = 30_100;
    let final_emission = capture
        .take_due(
            now.after(ms(final_flush_at_ms)),
            &mut authorizations,
        )
        .expect("the last batch should reach the maximum hold");
    flush_times_ms.push(final_flush_at_ms);
    emitted_text.push_str(
        sent_one(final_emission)
            .text
            .as_deref()
            .expect("the last trace-shaped batch should be authorized"),
    );

    assert_eq!(
        flush_times_ms,
        vec![5_100, 10_100, 15_100, 20_100, 25_100, 30_100]
    );
    assert!(
        flush_times_ms
            .windows(2)
            .all(|times| times[1] - times[0] <= VALUE_MAX_HOLD / MILLISECOND)
    );
    assert_eq!(emitted_text, "x".repeat(current_value.len() - 1));
}

#[test]
fn unreadable_focus_snapshot_preserves_pending_authorization() {
    let now = start();
    let (publisher, mut authorizations) = input_authorization_channel();
    let authorization = publisher
        .prepare(&mut authorizations, 7, 1, now)
        .expect("authorization channel should accept the reservation");
    let mut capture = ValueCapture::new(
        true,
        Some("A".to_owned()),
        FieldClass::KnownText(FieldKind::Text),
    );
    let _ = capture.observe(observation(7, 1, now, "Ax"), &mut authorizations);

    assert!(matches!(
        capture.resolve_unreadable_focus_change(&mut authorizations),
        FocusChangeCapture::Defer
    ));
    authorization.confirm(&mut authorizations);

    assert_eq!(
        sent(capture.take_due(now.after(VALUE_DEBOUNCE), &mut authorizations)),
        Some(Sent {
            element_value: None,
            value_len: Some(2),
            text: Some("x".to_owned()),
        })
    );
}

#[test]
fn pending_worker_keystroke_fails_closed_without_consuming_its_window() {
    let now = start();
    let (publisher, mut authorizations) = input_authorization_channel();
    let authorization = publisher
        .prepare(&mut authorizations, 7, 1, now)
        .expect("authorization channel should accept the reservation");
    let mut capture = ValueCapture::new(
        true,
        Some("A".to_owned()),
        FieldClass::KnownText(FieldKind::Text),
    );
    let _ = capture.observe(observation(7, 1, now, "Ax"), &mut authorizations);

    assert_eq!(
        sent(capture.take_due(now.after(VALUE_DEBOUNCE), &mut authorizations)),
        Some(Sent {
            element_value: None,
            value_len: Some(2),
            text: None,
        })
    );
    authorization.confirm(&mut authorizations);
    assert!(has_window(&mut authorizations, 7, 1, now.after(VALUE_DEBOUNCE)));
}

#[test]
fn rejected_worker_reservation_fails_closed() {
    let now = start();
    let (publisher, mut authorizations) = input_authorization_channel();
    let authorization = publisher
        .prepare(&mut authorizations, 7, 1, now)
        .expect("authorization channel should accept the reservation");
    authorization.reject(&mut authorizations);
    let mut capture = ValueCapture::new(
        true,
        Some("A".to_owned()),
        FieldClass::KnownText(FieldKind::Text),
    );
    let _ = capture.observe(observation(7, 1, now, "Ax"), &mut authorizations);

    assert_eq!(
        sent(capture.take_due(now.after(VALUE_DEBOUNCE), &mut authorizations)),
        Some(Sent {
            element_value: None,
            value_len: Some(2),
            text: None,
        })
    );
}

#[test]
fn input_after_the_notification_does_not_authorize_the_value() {
    let now = start();
    let (publisher, mut authorizations) = input_authorization_channel();
    let authorization = publisher
        .prepare(&mut authorizations, 7, 1, now.after(ms(10)))
        .expect("authorization channel should accept the reservation");
    authorization.confirm(&mut authorizations);
    let mut capture = ValueCapture::new(
        true,
        Some("A".to_owned()),
        FieldClass::KnownText(FieldKind::Text),
    );
    let _ = capture.observe(observation(7, 1, now, "Ax"), &mut authorizations);

    assert_eq!(
        sent(capture.take_due(now.after(VALUE_DEBOUNCE), &mut authorizations)),
        Some(Sent {
            element_value: None,
            value_len: Some(2),
            text: None,
        })
    );
}

#[test]
fn unknown_role_never_emits_a_value() {
    let now = start();
    let (publisher, mut authorizations) = input_authorization_channel();
    let authorization = publisher
        .prepare(&mut authorizations, 7, 1, now)
        .expect("authorization channel should accept the reservation");
    authorization.confirm(&mut authorizations);
    let mut capture = ValueCapture::new(true, None, FieldClass::Unknown);
    let mut unknown = observation(7, 1, now, "document contents");
    unknown.field_class = FieldClass::Unknown;

    let _ = capture.observe(unknown, &mut authorizations);
    assert_eq!(
        sent(capture.take_due(now.after(VALUE_DEBOUNCE), &mut authorizations)),
        None
    );
}

#[test]
fn unknown_transition_invalidates_baseline_and_authorization() {
    let now = start();
    let (mut capture, mut authorizations) = authorized_capture(7, 1, now, "A");
    let mut unknown = observation(7, 1, now, "A private");
    unknown.field_class = FieldClass::Unknown;
    let _ = capture.observe(unknown, &mut authorizations);

    let _ = capture.observe(
        observation(7, 1, now.after(ms(100)), "A privatez"),
        &mut authorizations,
    );

    assert_eq!(
        sent(capture.take_due(now.after(VALUE_DEBOUNCE * 2), &mut authorizations)),
        Some(Sent {
            element_value: None,
            value_len: Some(10),
            text: None,
        })
    );
}

#[test]
fn secure_transition_invalidates_baseline_and_authorization() {
    let now = start();
    let (mut capture, mut authorizations) = authorized_capture(7, 1, now, "A");
    let _ = capture.observe(observation(7, 1, now, "Ax"), &mut authorizations);
    let mut secure = observation(7, 1, now.after(ms(100)), "Ax secret");
    secure.field_class = FieldClass::SecureText;
    let _ = capture.observe(secure, &mut authorizations);

    let _ = capture.observe(
        observation(7, 1, now.after(ms(200)), "Ax secretz"),
        &mut authorizations,
    );

    assert_eq!(
        sent(capture.take_due(now.after(VALUE_DEBOUNCE * 2), &mut authorizations)),
        Some(Sent {
            element_value: None,
            value_len: Some(10),
            text: None,
        })
    );
}

#[test]
fn fresh_ledger_numbers_keystrokes() {
    let (publisher, mut authorizations) = input_authorization_channel();
    assert!(authorizations.can_issue());
    let first = publisher.prepare(&mut authorizations, 7, 1, Instant::from_nanos(1));
    let second = publisher.prepare(&mut authorizations, 7, 1, Instant::from_nanos(2));
    assert_eq!(first.map(|authorization| authorization.sequence), Ok(1));
    assert_eq!(second.map(|authorization| authorization.sequence), Ok(2));
}

#[test]
fn other_reservations_keep_their_state() {
    let now = start();
    let (publisher, mut authorizations) = input_authorization_channel();
    let first = publisher.prepare(&mut authorizations, 7, 1, now).expect("reserved");
    let second = publisher.prepare(&mut authorizations, 7, 2, now).expect("reserved");
    let third = publisher.prepare(&mut authorizations, 8, 1, now).expect("reserved");
    third.confirm(&mut authorizations);
    authorizations.invalidate(7, 1);
    assert_eq!(first.state(&authorizations), AuthorizationState::Invalidated);
    assert_eq!(second.state(&authorizations), AuthorizationState::Pending);
    assert_eq!(third.state(&authorizations), AuthorizationState::Confirmed);
    authorizations.remove_pid(7);
    assert_eq!(second.state(&authorizations), AuthorizationState::Invalidated);
    assert_eq!(third.state(&authorizations), AuthorizationState::Confirmed);
}

#[test]
fn expired_attempts_are_pruned() {
    let now = start();
    let (publisher, mut authorizations) = input_authorization_channel();
    let later = now.after(INPUT_WINDOW);
    for at in [now, later] {
        publisher
            .prepare(&mut authorizations, 7, 1, at)
            .expect("authorization channel should accept the reservation")
            .confirm(&mut authorizations);
    }
    let within = now.after(1);
    assert!(has_window(&mut authorizations, 7, 1, within));
    assert!(has_window(&mut authorizations, 7, 1, later.after(1)));
    assert!(!has_window(&mut authorizations, 7, 1, within));
    assert!(has_window(&mut authorizations, 7, 1, later.after(INPUT_WINDOW)));
    assert!(!has_window(&mut authorizations, 7, 1, later.after(INPUT_WINDOW + 1)));
}
