//! Waking up an application's accessibility tree.

use vstd::prelude::*;

use crate::clock::{Instant, SECOND};
use crate::channel;
use crate::channel::count_up;
use crate::subject::Subject;

verus! {

/// The attribute that asks an application for its full accessibility tree.
pub const MANUAL_ACCESSIBILITY: &'static str = "AXManualAccessibility";

/// How long after an attach the focus is read again, in nanoseconds.
pub const APPLICATION_ROLE_RECONCILE_DELAY: u64 = SECOND;

/// When the focus of a freshly attached application is read again.
#[derive(Clone, Copy, Debug, PartialEq, Eq, Structural)]
pub struct AccessibilityActivation {
    pub focused_reconcile_at: Option<Instant>,
}

impl Default for AccessibilityActivation {
    fn default() -> (activation: AccessibilityActivation)
        ensures
            activation.focused_reconcile_at is None,
    {
        AccessibilityActivation { focused_reconcile_at: None }
    }
}

impl AccessibilityActivation {
    pub open spec fn is_due(self, now: Instant) -> bool {
        self.focused_reconcile_at matches Some(deadline) && now.nanos >= deadline.nanos
    }

    /// Plans the next reading; an earlier plan is replaced.
    pub fn schedule_reconcile(&mut self, now: Instant)
        ensures
            final(self).focused_reconcile_at matches Some(deadline) && deadline.nanos
                == if now.nanos + APPLICATION_ROLE_RECONCILE_DELAY <= u64::MAX {
                now.nanos + APPLICATION_ROLE_RECONCILE_DELAY
            } else {
                u64::MAX as int
            },
    {
        self.focused_reconcile_at = Some(now.after(APPLICATION_ROLE_RECONCILE_DELAY));
    }

    /// Whether the planned reading is due; a due plan is used up.
    pub fn take_due(&mut self, now: Instant) -> (due: bool)
        ensures
            due == old(self).is_due(now),
            *final(self) == if old(self).is_due(now) {
                AccessibilityActivation { focused_reconcile_at: None }
            } else {
                *old(self)
            },
    {
        match self.focused_reconcile_at {
            None => false,
            Some(deadline) => {
                if now.nanos < deadline.nanos {
                    return false;
                }
                self.focused_reconcile_at = None;
                true
            },
        }
    }
}

/// What the current filter says of an application's optional bodies. A filter
/// that cannot be read says nothing.
#[derive(Clone, Copy, Debug, PartialEq, Eq, Structural)]
pub struct FilterAnswer {
    pub text_content: bool,
    pub content_snapshot: bool,
}

/// Which applications are asked for their full accessibility tree.
#[derive(Debug, PartialEq, Eq)]
pub struct ManualAccessibilityPolicy {
    capture_text_content: bool,
    capture_content_snapshot: bool,
    generation: u64,
}

impl ManualAccessibilityPolicy {
    pub closed spec fn spec_text(self) -> bool {
        self.capture_text_content
    }

    pub closed spec fn spec_snapshot(self) -> bool {
        self.capture_content_snapshot
    }

    pub closed spec fn spec_generation(self) -> u64 {
        self.generation
    }

    /// The policy for these capture settings.
    pub fn new(capture_text_content: bool, capture_content_snapshot: bool) -> (policy: Self)
        ensures
            policy.spec_text() == capture_text_content,
            policy.spec_snapshot() == capture_content_snapshot,
            policy.spec_generation() == 0,
    {
        ManualAccessibilityPolicy { capture_text_content, capture_content_snapshot, generation: 0 }
    }

    /// Notes that the filter was replaced; a filter that could not be written
    /// changes nothing.
    pub fn replace_filter(&mut self, written: bool)
        ensures
            final(self).spec_text() == old(self).spec_text(),
            final(self).spec_snapshot() == old(self).spec_snapshot(),
            final(self).spec_generation() == if written {
                channel::next_count(old(self).spec_generation())
            } else {
                old(self).spec_generation()
            },
    {
        if written {
            self.generation = count_up(self.generation);
        }
    }

    /// How often the filter was replaced.
    pub fn generation(&self) -> (generation: u64)
        ensures
            generation == self.spec_generation(),
    {
        self.generation
    }

    /// Whether an application is asked for its full tree: one of its optional
    /// bodies is captured and the filter allows it. Without an answer it is not.
    pub open spec fn admits(self, answer: Option<FilterAnswer>) -> bool {
        answer matches Some(filter) && (self.spec_text() && filter.text_content
            || self.spec_snapshot() && filter.content_snapshot)
    }

    /// Whether an application is asked for its full tree.
    pub fn allows(&self, answer: Option<FilterAnswer>) -> (allowed: bool)
        ensures
            allowed == self.admits(answer),
    {
        match answer {
            None => false,
            Some(filter) => self.capture_text_content && filter.text_content
                || self.capture_content_snapshot && filter.content_snapshot,
        }
    }
}

/// The setting to write for an application: none where the application was not
/// asked for its full tree.
pub fn manual_accessibility_setting(enabled_for_app: bool, enabled: bool) -> (setting: Option<
    bool,
>)
    ensures
        setting == if enabled_for_app {
            Some(enabled)
        } else {
            None
        },
{
    if enabled_for_app {
        Some(enabled)
    } else {
        None
    }
}

/// A planned reading happens once: after it was taken, no later time finds it due.
pub proof fn law_reconcile_is_one_shot(
    activation: AccessibilityActivation,
    first: Instant,
    later: Instant,
)
    requires
        activation.is_due(first),
    ensures
        !(AccessibilityActivation { focused_reconcile_at: None }).is_due(later),
        later.nanos >= first.nanos ==> activation.is_due(later),
{
}

/// A second look is due one second after it was planned, and once.
pub proof fn law_second_looks_come_a_second_later(
    planned: Subject<AccessibilityActivation>,
    now: Instant,
    taken: Subject<AccessibilityActivation>,
    due: bool,
)
    requires
        call_ensures(AccessibilityActivation::schedule_reconcile, (planned.on, now), ()),
        call_ensures(AccessibilityActivation::take_due, (taken.on, now), due),
        now.nanos + 1_000_000_000 <= u64::MAX,
    ensures
        final(planned.on).focused_reconcile_at == Some(
            Instant { nanos: (now.nanos + 1_000_000_000) as u64 },
        ),
        due <==> (old(taken.on).focused_reconcile_at matches Some(deadline) && deadline.nanos
            <= now.nanos),
        due ==> final(taken.on).focused_reconcile_at is None,
        !due ==> *final(taken.on) == *old(taken.on),
{
}

/// An application is asked for its full tree exactly where one of its bodies is captured and the filter
/// allows that body; without an answer it is not. A setting is made only for such an application.
pub proof fn law_full_trees_need_an_allowed_body(
    capture_text_content: bool,
    capture_content_snapshot: bool,
    policy: ManualAccessibilityPolicy,
    answer: Option<FilterAnswer>,
    allowed: bool,
    enabled_for_app: bool,
    enabled: bool,
    setting: Option<bool>,
    replaced: Subject<ManualAccessibilityPolicy>,
    written: bool,
)
    requires
        call_ensures(
            ManualAccessibilityPolicy::new,
            (capture_text_content, capture_content_snapshot),
            policy,
        ),
        call_ensures(ManualAccessibilityPolicy::allows, (&policy, answer), allowed),
        call_ensures(manual_accessibility_setting, (enabled_for_app, enabled), setting),
        call_ensures(ManualAccessibilityPolicy::replace_filter, (replaced.on, written), ()),
        replaced.on.spec_generation() < u64::MAX,
    ensures
        allowed <==> (answer matches Some(filter) && ((capture_text_content && filter.text_content)
            || (capture_content_snapshot && filter.content_snapshot))),
        setting is Some <==> enabled_for_app,
        setting matches Some(made) ==> made == enabled,
        final(replaced.on).spec_generation() == old(replaced.on).spec_generation() + if written {
            1int
        } else {
            0
        },
{
}

} // verus!
