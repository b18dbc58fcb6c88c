//! The tap's lifecycle: recovery, degradation and retries.

use std::cell::RefCell;
use std::collections::VecDeque;

use zanei_macos::channel::BoundedChannel;
use zanei_macos::clock::SECOND;
use zanei_macos::eventtap::state::{
    DisableReason, Driver, EventTapApi, Input, Lifecycle, MonotonicTime, RecreateCause, TapState,
};
use zanei_macos::eventtap::worker::{maintain, recover_from_wake, take_wake};

#[derive(Default)]
struct FakeApi {
    calls: Vec<&'static str>,
    enabled_results: RefCell<VecDeque<bool>>,
    recreate_results: VecDeque<bool>,
    secure_input: bool,
}

impl FakeApi {
    fn with_results(
        enabled_results: impl IntoIterator<Item = bool>,
        recreate_results: impl IntoIterator<Item = bool>,
    ) -> Self {
        Self {
            enabled_results: RefCell::new(enabled_results.into_iter().collect()),
            recreate_results: recreate_results.into_iter().collect(),
            ..Self::default()
        }
    }
}

impl EventTapApi for FakeApi {
    fn enable(&mut self) {
        self.calls.push("enable");
    }

    fn is_enabled(&self) -> bool {
        self.enabled_results
            .borrow_mut()
            .pop_front()
            .unwrap_or(false)
    }

    fn recreate(&mut self) -> bool {
        self.calls.push("recreate");
        self.recreate_results.pop_front().unwrap_or(false)
    }

    fn secure_input_enabled(&self) -> bool {
        self.secure_input
    }
}

fn at(seconds: u64) -> MonotonicTime {
    MonotonicTime::from_nanos(seconds * SECOND)
}

#[test]
fn startup_recreate_success_enables_the_tap() {
    let api = FakeApi::with_results([true], [true]);
    let mut driver = Driver::start(api, at(0));
    assert_eq!(driver.state(), TapState::Enabled);
    assert_eq!(driver.api_mut().calls, ["recreate"]);
}

#[test]
fn failed_startup_retries_after_exact_backoff() {
    let api = FakeApi::with_results([], [false, false]);
    let mut driver = Driver::start(api, at(5));
    assert_eq!(
        driver.state(),
        TapState::Degraded {
            cause: RecreateCause::Startup,
            retry_at: at(35),
        }
    );
    driver.retry(at(34));
    assert_eq!(driver.api_mut().calls, ["recreate"]);
    driver.retry(at(35));
    assert_eq!(driver.api_mut().calls, ["recreate", "recreate"]);
    assert_eq!(
        driver.state(),
        TapState::Degraded {
            cause: RecreateCause::Retry,
            retry_at: at(65),
        }
    );
}

#[test]
fn disabled_tap_returns_to_enabled_without_recreation_when_enable_succeeds() {
    let api = FakeApi::with_results([true, true], [true]);
    let mut driver = Driver::start(api, at(0));
    driver.disabled(DisableReason::Timeout, at(1));

    assert_eq!(driver.api_mut().calls, ["recreate", "enable"]);
    assert_eq!(driver.state(), TapState::Enabled);
}

#[test]
fn disable_escalates_from_enable_to_successful_recreation() {
    let api = FakeApi::with_results([true, false, true], [true, true]);
    let mut driver = Driver::start(api, at(0));
    driver.disabled(DisableReason::UserInput, at(1));

    assert_eq!(driver.api_mut().calls, ["recreate", "enable", "recreate"]);
    assert_eq!(driver.state(), TapState::Enabled);
}

#[test]
fn failed_enable_and_recreation_enters_degraded_state() {
    let api = FakeApi::with_results([true, false], [true, false]);
    let mut driver = Driver::start(api, at(0));
    driver.disabled(DisableReason::Timeout, at(7));

    assert_eq!(
        driver.state(),
        TapState::Degraded {
            cause: RecreateCause::Disabled(DisableReason::Timeout),
            retry_at: at(37),
        }
    );
}

#[test]
fn watchdog_uses_the_same_enable_then_recreate_escalation() {
    let api = FakeApi::with_results([true, false, false, true], [true, true]);
    let mut driver = Driver::start(api, at(0));
    driver.watchdog(at(10));

    assert_eq!(driver.api_mut().calls, ["recreate", "enable", "recreate"]);
    assert_eq!(driver.state(), TapState::Enabled);
}

#[test]
fn wake_skips_enable_and_recreates_directly() {
    let api = FakeApi::with_results([true, true], [true, true]);
    let mut driver = Driver::start(api, at(0));
    driver.wake(at(10));
    assert_eq!(driver.api_mut().calls, ["recreate", "recreate"]);
    assert_eq!(driver.state(), TapState::Enabled);
}

#[test]
fn secure_input_is_orthogonal_to_tap_health() {
    let mut api = FakeApi::with_results([true, true], [true]);
    api.secure_input = true;
    let mut driver = Driver::start(api, at(0));
    driver.watchdog(at(10));
    assert_eq!(driver.state(), TapState::Enabled);
    assert!(driver.secure_input());
}

#[test]
fn duplicate_disable_does_not_start_another_recovery() {
    let (mut lifecycle, _) = Lifecycle::new();
    lifecycle.state = TapState::Disabled(DisableReason::Timeout);
    assert_eq!(
        lifecycle.transition(Input::Disabled(DisableReason::UserInput)),
        None
    );
    assert_eq!(
        lifecycle.state(),
        TapState::Disabled(DisableReason::Timeout)
    );
}

#[test]
fn degraded_entries_increment_once_per_entry_not_per_poll() {
    let api = FakeApi::with_results([], [false, false]);
    let mut driver = Driver::start(api, at(0));
    assert_eq!(driver.degraded_entries(), 1);
    driver.retry(at(29));
    driver.retry(at(29));
    assert_eq!(driver.degraded_entries(), 1);
    driver.retry(at(30));
    assert_eq!(driver.degraded_entries(), 2);
}

#[test]
fn successful_retry_clears_current_degradation_without_erasing_history() {
    let api = FakeApi::with_results([true, true], [false, true]);
    let mut driver = Driver::start(api, at(0));
    assert!(driver.is_degraded());
    assert_eq!(driver.degraded_entries(), 1);

    driver.retry(at(30));

    assert!(!driver.is_degraded());
    assert_eq!(driver.state(), TapState::Enabled);
    assert_eq!(driver.degraded_entries(), 1);
}

#[test]
fn waiting_wake_ups_are_taken_together() {
    let mut wakes = BoundedChannel::new(8);
    assert!(!take_wake(&mut wakes));
    assert!(wakes.try_send(()).is_ok());
    assert!(wakes.try_send(()).is_ok());
    assert!(take_wake(&mut wakes));
    assert!(!take_wake(&mut wakes));
}

#[test]
fn wake_up_recreates_the_tap_once() {
    let api = FakeApi::with_results([true, true], [true, true]);
    let mut driver = Driver::start(api, at(0));
    let mut queue = BoundedChannel::new(8);
    assert!(queue.try_send(()).is_ok());
    let mut wakes = Some(queue);
    recover_from_wake(&mut driver, &mut wakes, at(1));
    recover_from_wake(&mut driver, &mut wakes, at(2));
    assert_eq!(driver.api_mut().calls, ["recreate", "recreate"]);
    recover_from_wake(&mut driver, &mut None, at(3));
    assert_eq!(driver.api_mut().calls, ["recreate", "recreate"]);
}

#[test]
fn maintenance_runs_the_watchdog_only_when_it_is_due() {
    let api = FakeApi::with_results([true, true], [true]);
    let mut driver = Driver::start(api, at(0));
    let mut observed = 0;
    let mut operations = 0;
    let early = maintain(&mut driver, 10 * SECOND - 1, at(9), false, &mut observed, &mut operations);
    assert!(!early.watchdog_ran);
    assert!(!early.degraded);
    let due = maintain(&mut driver, 10 * SECOND, at(10), true, &mut observed, &mut operations);
    assert!(due.watchdog_ran);
    assert!(due.degraded);
    assert_eq!((observed, operations), (0, 0));
}

#[test]
fn maintenance_retries_and_counts_a_degraded_tap() {
    let api = FakeApi::with_results([], [false, false]);
    let mut driver = Driver::start(api, at(0));
    let mut observed = 0;
    let mut operations = 4;
    let first = maintain(&mut driver, 0, at(29), false, &mut observed, &mut operations);
    assert!(first.degraded);
    assert_eq!((observed, operations), (1, 5));
    let second = maintain(&mut driver, 0, at(30), false, &mut observed, &mut operations);
    assert!(second.degraded);
    assert_eq!((observed, operations), (2, 6));
    assert_eq!(driver.api_mut().calls, ["recreate", "recreate"]);
}
