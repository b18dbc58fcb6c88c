//! Small conversions and counters of the event-tap worker.

use vstd::prelude::*;

use super::native::NativeDisableReason;
use super::state;
use super::state::{DisableReason, Driver, EventTapApi};
use crate::channel;
use crate::channel::join_counts;
use crate::schema::ClickButton;
use crate::subject::Subject;

verus! {

/// Asks the native side whether secure input is on.
pub fn refresh_secure_input<A: EventTapApi>(driver: &mut Driver<A>, published: &mut bool) -> (
    enabled: bool)
    ensures
        *final(published) == enabled,
        state::secure_input_asked(old(driver)@.api, enabled),
        final(driver)@ == old(driver)@,
{
    let enabled = driver.api_mut().secure_input_enabled();
    *published = enabled;
    enabled
}

/// Whether the counters take in the entries into the degraded state since the
/// last look.
pub open spec fn recorded(
    entries: u64,
    observed: u64,
    operations: u64,
    observed_after: u64,
    operations_after: u64,
) -> bool {
    if entries > observed {
        observed_after == entries && operations_after == channel::joined(
            operations,
            (entries - observed) as u64,
        )
    } else {
        observed_after == observed && operations_after == operations
    }
}

/// Counts the entries into the degraded state since the last look.
pub fn record_degraded_entries<A: EventTapApi>(
    driver: &Driver<A>,
    observed: &mut u64,
    degraded_operations: &mut u64,
)
    ensures
        recorded(
            driver@.degraded_entries,
            *old(observed),
            *old(degraded_operations),
            *final(observed),
            *final(degraded_operations),
        ),
{
    let current: u64 = driver.degraded_entries();
    if current > *observed {
        *degraded_operations = join_counts(*degraded_operations, current - *observed);
        *observed = current;
    }
}

/// Whether the tap counts as degraded now: it could not be recreated, or the
/// system's wake-ups cannot be observed.
pub fn current_health<A: EventTapApi>(driver: &Driver<A>, wake_recovery_degraded: bool) -> (
    degraded: bool)
    ensures
        degraded == (wake_recovery_degraded || driver@.lifecycle.state is Degraded),
{
    wake_recovery_degraded || driver.is_degraded()
}

/// The lifecycle reason of a native one.
pub open spec fn reason_of(value: NativeDisableReason) -> DisableReason {
    match value {
        NativeDisableReason::Timeout => DisableReason::Timeout,
        NativeDisableReason::UserInput => DisableReason::UserInput,
    }
}

/// The lifecycle reason of a native one.
pub fn disable_reason(value: NativeDisableReason) -> (reason: DisableReason)
    ensures
        reason == reason_of(value),
{
    match value {
        NativeDisableReason::Timeout => DisableReason::Timeout,
        NativeDisableReason::UserInput => DisableReason::UserInput,
    }
}

pub open spec fn button_for(value: u32) -> ClickButton {
    if value == 0 {
        ClickButton::Left
    } else if value == 1 {
        ClickButton::Right
    } else {
        ClickButton::Other
    }
}

/// The schema button of a native number.
pub fn click_button(value: u32) -> (button: ClickButton)
    ensures
        button == button_for(value),
{
    match value {
        0 => ClickButton::Left,
        1 => ClickButton::Right,
        _ => ClickButton::Other,
    }
}

/// Every entry into the degraded state is counted once as a failed operation: after the new ones
/// were counted, counting again changes nothing.
pub proof fn law_entries_are_counted_once<A: EventTapApi>(
    driver: Driver<A>,
    observed: Subject<u64>,
    operations: Subject<u64>,
)
    requires
        call_ensures(
            record_degraded_entries::<A>,
            (&driver, observed.on, operations.on),
            (),
        ),
        *observed.on <= driver@.degraded_entries,
        *operations.on + (driver@.degraded_entries - *observed.on) <= u64::MAX,
    ensures
        *final(observed.on) == driver@.degraded_entries,
        *final(operations.on) == *old(operations.on) + (driver@.degraded_entries - *old(
            observed.on,
        )),
{
}

/// What the native side answers about secure input is what is published and returned.
pub proof fn law_secure_input_is_published<A: EventTapApi>(
    driver: Subject<Driver<A>>,
    published: Subject<bool>,
    enabled: bool,
    health: bool,
    wakes_missing: bool,
)
    requires
        call_ensures(refresh_secure_input::<A>, (driver.on, published.on), enabled),
        call_ensures(current_health::<A>, (driver.on, wakes_missing), health),
    ensures
        *final(published.on) == enabled,
        state::secure_input_asked(old(driver.on)@.api, enabled),
        final(driver.on)@ == old(driver.on)@,
        health <==> wakes_missing || old(driver.on)@.lifecycle.state is Degraded,
{
}

/// The reasons for which a tap is switched off keep their names, and buttons are numbered from
/// the left.
pub proof fn law_native_names_are_kept(
    value: NativeDisableReason,
    reason: DisableReason,
    number: u32,
    button: ClickButton,
)
    requires
        call_ensures(disable_reason, (value,), reason),
        call_ensures(click_button, (number,), button),
    ensures
        reason is Timeout <==> value is Timeout,
        reason is UserInput <==> value is UserInput,
        button is Left <==> number == 0,
        button is Right <==> number == 1,
        button is Other <==> number >= 2,
{
}

} // verus!
