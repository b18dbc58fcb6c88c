//! Monotonic time as an integer number of nanoseconds.

use vstd::prelude::*;

verus! {

/// Nanoseconds in one millisecond.
pub const MILLISECOND: u64 = 1_000_000;

/// Nanoseconds in one second.
pub const SECOND: u64 = 1_000_000_000;

/// A reading of the monotonic clock, in nanoseconds since an arbitrary origin.
#[derive(Clone, Copy, Debug, PartialEq, Eq, PartialOrd, Ord, Hash, Structural)]
pub struct Instant {
    pub nanos: u64,
}

impl Instant {
    /// Nanoseconds from `earlier` to `self`; zero when `earlier` is later.
    pub open spec fn since(self, earlier: Instant) -> int {
        if self.nanos >= earlier.nanos {
            self.nanos - earlier.nanos
        } else {
            0
        }
    }

    /// Whether at least `span` nanoseconds separate `start` from `self`.
    pub open spec fn reached(self, start: Instant, span: u64) -> bool {
        self.nanos >= start.nanos + span
    }

    /// The reading `nanos` nanoseconds after the origin.
    pub fn from_nanos(nanos: u64) -> (instant: Instant)
        ensures
            instant.nanos == nanos,
    {
        Instant { nanos }
    }

    /// The reading `span` nanoseconds later, or the last representable one.
    pub fn after(self, span: u64) -> (later: Instant)
        ensures
            later.nanos == if self.nanos + span <= u64::MAX {
                self.nanos + span
            } else {
                u64::MAX as int
            },
    {
        match self.nanos.checked_add(span) {
            Some(nanos) => Instant { nanos },
            None => Instant { nanos: u64::MAX },
        }
    }

    /// Nanoseconds elapsed since `earlier`, never negative.
    pub fn saturating_nanos_since(self, earlier: Instant) -> (elapsed: u64)
        ensures
            elapsed == self.since(earlier),
    {
        if self.nanos >= earlier.nanos {
            self.nanos - earlier.nanos
        } else {
            0
        }
    }

    /// Whether the deadline `span` nanoseconds after `start` has come.
    pub fn has_reached(self, start: Instant, span: u64) -> (due: bool)
        ensures
            due == self.reached(start, span),
    {
        self.nanos >= start.nanos && self.nanos - start.nanos >= span
    }
}

/// A later reading is reached once that much time went by, and not before; what went by is their difference, and
/// nothing where the earlier reading is the later one.
pub proof fn law_time_passes_evenly(
    start: Instant,
    span: u64,
    later: Instant,
    now: Instant,
    elapsed: u64,
    due: bool,
)
    requires
        start.nanos + span <= u64::MAX,
        call_ensures(Instant::after, (start, span), later),
        call_ensures(Instant::saturating_nanos_since, (now, start), elapsed),
        call_ensures(Instant::has_reached, (now, start, span), due),
    ensures
        later.nanos - start.nanos == span,
        now.nanos >= start.nanos ==> start.nanos + elapsed == now.nanos,
        now.nanos < start.nanos ==> elapsed == 0,
        due <==> now.nanos >= later.nanos,
        due && span > 0 ==> elapsed >= span,
{
}

} // verus!
