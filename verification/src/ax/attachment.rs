//! Applications that begin to be observed, and the settings made for them.

use vstd::prelude::*;

use super::accessibility::{
    AccessibilityActivation, FilterAnswer, ManualAccessibilityPolicy,
    APPLICATION_ROLE_RECONCILE_DELAY,
};
use super::dispatch;
use super::dispatch::{NativeRegistrations, ReadTarget};
use super::element::{ValueFieldSnapshot, ValueSnapshot};
use super::health::{AxFailureState, AxRecoverySite};
use super::initial_snapshot::FocusedElementSnapshot;
use super::observer::{AppObserver, FocusMoment, FocusOutcomes, ObserverModel};
use super::runtime;
use super::runtime::{NativeAx, RuntimeModel};
use super::types::{ElementId, NativeAxError, NativeAxEvent};
use crate::channel;
use crate::clock::Instant;
use crate::schema::App;
use crate::subject::Subject;
use crate::text_capture::authorization::LedgerModel;
use crate::text_capture::policy::CapturePolicy;
use super::focus_lifecycle;

verus! {

/// An observer under the name and setting of its application.
pub open spec fn named(before: ObserverModel, app: App, manual: bool) -> ObserverModel {
    ObserverModel { app, manual, ..before }
}

/// Whether these are the outcomes of looking at the focus.
pub open spec fn focus_looked_at<
    F: FnOnce(ElementId, bool) -> ValueFieldSnapshot,
    S: FnOnce(ElementId, bool) -> Result<Option<FocusedElementSnapshot>, NativeAxError>,
    V: FnOnce(ElementId, bool, bool) -> ValueSnapshot,
    X: Fn(ElementId) -> Result<(), NativeAxError>,
    Y: Fn(ElementId) -> Result<(), NativeAxError>,
>(
    before: ObserverModel,
    target: ReadTarget,
    moment: FocusMoment,
    policy: CapturePolicy,
    ledger: LedgerModel,
    read_field: F,
    read_snapshot: S,
    read_value: V,
    add_value: X,
    remove_value: Y,
    outcomes: FocusOutcomes,
) -> bool {
    &&& outcomes.called(
        before,
        target,
        policy,
        moment.secure_input,
        read_field,
        read_snapshot,
        read_value,
        add_value,
        remove_value,
    )
    &&& outcomes.released_or_cleared(before, target, policy, moment, ledger, remove_value)
}

/// Looking at the focus keeps an observer with its application.
proof fn lemma_focus_keeps_pid(
    before: ObserverModel,
    target: ReadTarget,
    outcomes: FocusOutcomes,
    policy: CapturePolicy,
    moment: FocusMoment,
    ledger: LedgerModel,
)
    ensures
        before.focused_or_cleared(target, outcomes, policy, moment, ledger).0.pid == before.pid,
{
}

/// Whether the focus of an observer can be read and looked at, whatever is read.
pub open spec fn focus_readable<
    T: FnOnce() -> ReadTarget,
    F: FnOnce(ElementId, bool) -> ValueFieldSnapshot,
    S: FnOnce(ElementId, bool) -> Result<Option<FocusedElementSnapshot>, NativeAxError>,
    V: FnOnce(ElementId, bool, bool) -> ValueSnapshot,
    X: Fn(ElementId) -> Result<(), NativeAxError>,
    Y: Fn(ElementId) -> Result<(), NativeAxError>,
>(
    before: ObserverModel,
    policy: CapturePolicy,
    secure_input: bool,
    read_target: T,
    read_field: F,
    read_snapshot: S,
    read_value: V,
    add_value: X,
    remove_value: Y,
) -> bool {
    &&& call_requires(read_target, ())
    &&& forall|target: ReadTarget| #[trigger]
        call_ensures(read_target, (), target) ==> before.focus_or_clear_ready(
            target,
            policy,
            secure_input,
            read_field,
            read_snapshot,
            read_value,
            add_value,
            remove_value,
        )
}

impl NativeAx {
    /// Follows an application that is observed already: its name and setting are
    /// taken over, the setting is made if it changed, and then its focus is read
    /// and looked at again. An application that is not observed is left to be
    /// attached.
    #[verifier::spinoff_prover]
    #[verifier::rlimit(60)]
    pub fn attach_again<
        M: FnOnce(bool),
        T: FnOnce() -> ReadTarget,
        F: FnOnce(ElementId, bool) -> ValueFieldSnapshot,
        S: FnOnce(ElementId, bool) -> Result<Option<FocusedElementSnapshot>, NativeAxError>,
        V: FnOnce(ElementId, bool, bool) -> ValueSnapshot,
        X: Fn(ElementId) -> Result<(), NativeAxError>,
        Y: Fn(ElementId) -> Result<(), NativeAxError>,
    >(
        &mut self,
        pid: i32,
        app: App,
        manual_accessibility: bool,
        set_manual: M,
        read_target: T,
        moment: FocusMoment,
        policy: &CapturePolicy,
        read_field: F,
        read_snapshot: S,
        read_value: V,
        add_value: &X,
        remove_value: &Y,
    ) -> (attached: Option<Vec<NativeAxEvent>>)
        requires
            old(self).wf(),
            forall|i: int|
                0 <= i < old(self)@.observers.len() && (#[trigger] old(self)@.observers[i]).pid
                    == pid ==> {
                    &&& old(self)@.observers[i].manual != manual_accessibility ==> call_requires(
                        set_manual,
                        (manual_accessibility,),
                    )
                    &&& focus_readable(
                        named(old(self)@.observers[i], app, manual_accessibility),
                        *policy,
                        moment.secure_input,
                        read_target,
                        read_field,
                        read_snapshot,
                        read_value,
                        *add_value,
                        *remove_value,
                    )
                },
        ensures
            final(self).wf(),
            attached is Some <==> old(self)@.observes(pid),
            attached is None ==> final(self)@ == old(self)@,
            attached is Some ==> forall|i: int|
                0 <= i < old(self)@.observers.len() && (#[trigger] old(self)@.observers[i]).pid
                    == pid ==> exists|target: ReadTarget, outcomes: FocusOutcomes|
                    {
                        &&& old(self)@.observers[i].manual != manual_accessibility
                            ==> call_ensures(set_manual, (manual_accessibility,), ())
                        &&& call_ensures(read_target, (), target)
                        &&& #[trigger] focus_looked_at(
                            named(old(self)@.observers[i], app, manual_accessibility),
                            target,
                            moment,
                            *policy,
                            old(self)@.ledger,
                            read_field,
                            read_snapshot,
                            read_value,
                            *add_value,
                            *remove_value,
                            outcomes,
                        )
                        &&& ({
                            let (observer, ledger, told) = named(
                                old(self)@.observers[i],
                                app,
                                manual_accessibility,
                            ).focused_or_cleared(
                                target,
                                outcomes,
                                *policy,
                                moment,
                                old(self)@.ledger,
                            );
                            &&& final(self)@ == (RuntimeModel {
                                observers: old(self)@.observers.update(i, observer),
                                ledger,
                                ..old(self)@
                            })
                            &&& (attached->0)@ == told
                        })
                    },
    {
        let ghost before = self@;
        let ghost held = self.observers@;
        let index = match self.position(pid) {
            None => {
                return None;
            },
            Some(index) => index,
        };
        proof {
            assert(before.observers[index as int] == held[index as int]@);
            assert forall|i: int| 0 <= i < before.observers.len() && (
            #[trigger] before.observers[i]).pid == pid implies i == index by {
                if i < index {
                    assert(before.observers[i].pid != before.observers[index as int].pid);
                } else if i > index {
                    assert(before.observers[index as int].pid != before.observers[i].pid);
                }
            }
        }
        let ghost start = named(before.observers[index as int], app, manual_accessibility);
        if let Some(setting) = self.observers[index].update_attach(app, manual_accessibility) {
            set_manual(setting);
        }
        assert(self.observers@[index as int]@ == start);
        let target = read_target();
        let events = self.observers[index].focused_element_or_clear(
            target,
            moment,
            policy,
            &mut self.authorizations,
            read_field,
            read_snapshot,
            read_value,
            add_value,
            remove_value,
        );
        proof {
            let after = self.observers@[index as int]@;
            let outcomes = choose|outcomes: FocusOutcomes|
                {
                    &&& #[trigger] outcomes.called(
                        start,
                        target,
                        *policy,
                        moment.secure_input,
                        read_field,
                        read_snapshot,
                        read_value,
                        *add_value,
                        *remove_value,
                    )
                    &&& outcomes.released_or_cleared(
                        start,
                        target,
                        *policy,
                        moment,
                        before.ledger,
                        *remove_value,
                    )
                    &&& (after, self.authorizations@, events@) == start.focused_or_cleared(
                        target,
                        outcomes,
                        *policy,
                        moment,
                        before.ledger,
                    )
                };
            lemma_focus_keeps_pid(start, target, outcomes, *policy, moment, before.ledger);
            assert(focus_looked_at(
                start,
                target,
                moment,
                *policy,
                before.ledger,
                read_field,
                read_snapshot,
                read_value,
                *add_value,
                *remove_value,
                outcomes,
            ));
            assert(self@.observers =~= before.observers.update(index as int, after));
        }
        Some(events)
    }
}

/// A reading of the clock some time later, or the last one.
pub open spec fn later(now: Instant, span: u64) -> Instant {
    Instant {
        nanos: if now.nanos + span <= u64::MAX {
            (now.nanos + span) as u64
        } else {
            u64::MAX
        },
    }
}

/// An observer once its application was asked for its role, which wakes the
/// application's accessibility; a second look at the focus is planned.
pub open spec fn activated(
    before: ObserverModel,
    now: Instant,
    role: Result<String, NativeAxError>,
) -> ObserverModel {
    let planned = ObserverModel {
        activation: AccessibilityActivation {
            focused_reconcile_at: Some(later(now, APPLICATION_ROLE_RECONCILE_DELAY)),
        },
        ..before
    };
    if role is Ok {
        ObserverModel {
            failures: planned.failures.recovered(AxRecoverySite::ApplicationRole),
            ..planned
        }
    } else {
        (ObserverModel {
            failures: AxFailureState::failed(AxRecoverySite::ApplicationRole),
            ..planned
        }).degraded_once()
    }
}

/// Whether the window that was read can be registered.
pub open spec fn window_readable<
    A: Fn(ElementId) -> Result<(), NativeAxError>,
    B: Fn(ElementId) -> Result<(), NativeAxError>,
    X: Fn(ElementId) -> Result<(), NativeAxError>,
    Y: Fn(ElementId) -> Result<(), NativeAxError>,
>(before: ObserverModel, window: ReadTarget, native: NativeRegistrations<A, B, X, Y>) -> bool {
    window matches Ok(found) ==> before.window_ready(found, native.add_title, native.remove_title)
}

impl NativeAx {
    /// Begins to observe an application whose notifications were registered: its
    /// setting is made, then its role, its window and its focus are read in turn.
    /// Hands back the events of its focus. That new windows could not be observed
    /// is counted.
    #[verifier::spinoff_prover]
    #[verifier::rlimit(60)]
    pub fn attach<
        M: FnOnce(bool),
        R: FnOnce() -> Result<String, NativeAxError>,
        W: FnOnce() -> ReadTarget,
        T: FnOnce() -> ReadTarget,
        F: FnOnce(ElementId, bool) -> ValueFieldSnapshot,
        S: FnOnce(ElementId, bool) -> Result<Option<FocusedElementSnapshot>, NativeAxError>,
        V: FnOnce(ElementId, bool, bool) -> ValueSnapshot,
        A: Fn(ElementId) -> Result<(), NativeAxError>,
        B: Fn(ElementId) -> Result<(), NativeAxError>,
        X: Fn(ElementId) -> Result<(), NativeAxError>,
        Y: Fn(ElementId) -> Result<(), NativeAxError>,
    >(
        &mut self,
        pid: i32,
        app: App,
        manual_accessibility: bool,
        windows_observed: bool,
        set_manual: M,
        read_role: R,
        read_window: W,
        read_target: T,
        moment: FocusMoment,
        policy: &CapturePolicy,
        read_field: F,
        read_snapshot: S,
        read_value: V,
        native: &NativeRegistrations<A, B, X, Y>,
    ) -> (attached: Vec<NativeAxEvent>)
        requires
            old(self).wf(),
            !old(self)@.observes(pid),
            manual_accessibility ==> call_requires(set_manual, (true,)),
            call_requires(read_role, ()),
            call_requires(read_window, ()),
            forall|role: Result<String, NativeAxError>, window: ReadTarget|
                #![trigger call_ensures(read_role, (), role), call_ensures(read_window, (), window)]
                call_ensures(read_role, (), role) && call_ensures(read_window, (), window)
                    ==> window_readable(
                    activated(
                        ObserverModel::fresh(pid, old(self)@.enabled, app, manual_accessibility),
                        moment.notification_at,
                        role,
                    ),
                    window,
                    *native,
                ),
            forall|
                role: Result<String, NativeAxError>,
                window: ReadTarget,
                looked: ObserverModel,
            |
                call_ensures(read_role, (), role) && call_ensures(read_window, (), window)
                    && #[trigger] dispatch::window_looked_up(
                    activated(
                        ObserverModel::fresh(pid, old(self)@.enabled, app, manual_accessibility),
                        moment.notification_at,
                        role,
                    ),
                    window,
                    native.add_title,
                    native.remove_title,
                    looked,
                ) ==> focus_readable(
                    looked,
                    *policy,
                    moment.secure_input,
                    read_target,
                    read_field,
                    read_snapshot,
                    read_value,
                    native.add_value,
                    native.remove_value,
                ),
        ensures
            final(self).wf(),
            manual_accessibility ==> call_ensures(set_manual, (true,), ()),
            exists|
                role: Result<String, NativeAxError>,
                window: ReadTarget,
                looked: ObserverModel,
                target: ReadTarget,
                outcomes: FocusOutcomes,
            |
                {
                    &&& call_ensures(read_role, (), role)
                    &&& call_ensures(read_window, (), window)
                    &&& call_ensures(read_target, (), target)
                    &&& #[trigger] dispatch::window_looked_up(
                        activated(
                            ObserverModel::fresh(
                                pid,
                                old(self)@.enabled,
                                app,
                                manual_accessibility,
                            ),
                            moment.notification_at,
                            role,
                        ),
                        window,
                        native.add_title,
                        native.remove_title,
                        looked,
                    )
                    &&& #[trigger] focus_looked_at(
                        looked,
                        target,
                        moment,
                        *policy,
                        old(self)@.ledger,
                        read_field,
                        read_snapshot,
                        read_value,
                        native.add_value,
                        native.remove_value,
                        outcomes,
                    )
                    &&& ({
                        let (observer, ledger, told) = looked.focused_or_cleared(
                            target,
                            outcomes,
                            *policy,
                            moment,
                            old(self)@.ledger,
                        );
                        &&& final(self)@ == (RuntimeModel {
                            observers: old(self)@.observers.push(observer),
                            ledger,
                            degraded: if windows_observed {
                                old(self)@.degraded
                            } else {
                                channel::next_count(old(self)@.degraded)
                            },
                            ..old(self)@
                        })
                        &&& attached@ == told
                    })
                },
    {
        let ghost before = self@;
        if !windows_observed {
            self.record_degraded();
        }
        let mut observer = AppObserver::new(
            pid,
            self.capture_text_content,
            app,
            manual_accessibility,
        );
        let ghost fresh = observer@;
        if let Some(setting) = observer.set_manual_accessibility(true) {
            set_manual(setting);
        }
        let role = read_role();
        let ghost answered = role;
        observer.activate_accessibility_tree(moment.notification_at, role);
        let ghost woken = activated(fresh, moment.notification_at, answered);
        assert(observer@.activation == woken.activation);
        assert(observer@ == woken);
        let window = read_window();
        let ghost shown = window;
        assert(window_readable(woken, shown, *native));
        observer.refresh_window_target(window, &native.add_title, &native.remove_title);
        let ghost looked = observer@;
        assert(dispatch::window_looked_up(
            woken,
            shown,
            native.add_title,
            native.remove_title,
            looked,
        ));
        let target = read_target();
        let events = observer.focused_element_or_clear(
            target,
            moment,
            policy,
            &mut self.authorizations,
            read_field,
            read_snapshot,
            read_value,
            &native.add_value,
            &native.remove_value,
        );
        proof {
            let outcomes = choose|outcomes: FocusOutcomes|
                {
                    &&& #[trigger] outcomes.called(
                        looked,
                        target,
                        *policy,
                        moment.secure_input,
                        read_field,
                        read_snapshot,
                        read_value,
                        native.add_value,
                        native.remove_value,
                    )
                    &&& outcomes.released_or_cleared(
                        looked,
                        target,
                        *policy,
                        moment,
                        before.ledger,
                        native.remove_value,
                    )
                    &&& (observer@, self.authorizations@, events@) == looked.focused_or_cleared(
                        target,
                        outcomes,
                        *policy,
                        moment,
                        before.ledger,
                    )
                };
            lemma_focus_keeps_pid(looked, target, outcomes, *policy, moment, before.ledger);
            assert(focus_looked_at(
                looked,
                target,
                moment,
                *policy,
                before.ledger,
                read_field,
                read_snapshot,
                read_value,
                native.add_value,
                native.remove_value,
                outcomes,
            ));
            assert(observer@.pid == pid);
            assert(self@.observers =~= before.observers);
        }
        self.install(observer);
        events
    }
}

/// The setting to make for an application whose setting was reconciled, if it
/// changed.
pub open spec fn settings_of(
    observers: Seq<ObserverModel>,
    allowed: Seq<bool>,
    count: nat,
) -> Seq<(i32, bool)>
    decreases count,
{
    if count == 0 {
        Seq::empty()
    } else {
        let earlier = settings_of(observers, allowed, (count - 1) as nat);
        if observers[count - 1].manual != allowed[count - 1] {
            earlier.push((observers[count - 1].pid, allowed[count - 1]))
        } else {
            earlier
        }
    }
}

/// Whether the policy decides so, by what the filter answers of an application.
pub open spec fn decides<D: Fn(&App) -> Option<FilterAnswer>>(
    app: App,
    policy: ManualAccessibilityPolicy,
    answer: D,
    allowed: bool,
) -> bool {
    exists|given: Option<FilterAnswer>| #[trigger]
        call_ensures(answer, (&app,), given) && policy.admits(given) == allowed
}

/// Whether the policy's decisions are these, by what the filter answers of each
/// application.
pub open spec fn decided<D: Fn(&App) -> Option<FilterAnswer>>(
    observers: Seq<ObserverModel>,
    policy: ManualAccessibilityPolicy,
    answer: D,
    allowed: Seq<bool>,
) -> bool {
    &&& allowed.len() == observers.len()
    &&& forall|i: int|
        0 <= i < observers.len() ==> decides(observers[i].app, policy, answer, #[trigger] allowed[i])
}

/// The observers under their settings.
pub open spec fn with_settings(
    observers: Seq<ObserverModel>,
    allowed: Seq<bool>,
    count: int,
) -> Seq<ObserverModel> {
    observers.map(
        |i: int, observer: ObserverModel|
            if i < count {
                ObserverModel { manual: allowed[i], ..observer }
            } else {
                observer
            },
    )
}

impl NativeAx {
    /// Goes by a replaced policy: hands back the setting to make for every
    /// application whose setting changed, in the order of the observers.
    pub fn reconcile_manual_accessibility<D: Fn(&App) -> Option<FilterAnswer>>(
        &mut self,
        policy: &ManualAccessibilityPolicy,
        answer: &D,
    ) -> (settings: Vec<(i32, bool)>)
        requires
            old(self).wf(),
            forall|i: int|
                0 <= i < old(self)@.observers.len() ==> call_requires(
                    *answer,
                    (&(#[trigger] old(self)@.observers[i]).app,),
                ),
        ensures
            final(self).wf(),
            exists|allowed: Seq<bool>|
                {
                    &&& #[trigger] decided(old(self)@.observers, *policy, *answer, allowed)
                    &&& settings@ == settings_of(
                        old(self)@.observers,
                        allowed,
                        old(self)@.observers.len(),
                    )
                    &&& final(self)@ == (RuntimeModel {
                        observers: with_settings(
                            old(self)@.observers,
                            allowed,
                            old(self)@.observers.len() as int,
                        ),
                        ..old(self)@
                    })
                },
    {
        let ghost before = self@;
        let mut settings: Vec<(i32, bool)> = Vec::new();
        let ghost mut allowed: Seq<bool> = Seq::empty();
        let mut index: usize = 0;
        assert(self@.observers =~= with_settings(before.observers, allowed, 0));
        while index < self.observers.len()
            invariant
                before == old(self)@,
                before.wf(),
                index <= self.observers@.len(),
                self.observers@.len() == before.observers.len(),
                allowed.len() == index,
                forall|i: int|
                    0 <= i < before.observers.len() ==> call_requires(
                        *answer,
                        (&(#[trigger] before.observers[i]).app,),
                    ),
                forall|i: int|
                    0 <= i < self.observers@.len() ==> (#[trigger] self.observers@[i]).wf(),
                forall|i: int|
                    0 <= i < index ==> decides(
                        before.observers[i].app,
                        *policy,
                        *answer,
                        #[trigger] allowed[i],
                    ),
                settings@ == settings_of(before.observers, allowed, index as nat),
                self@ == (RuntimeModel {
                    observers: with_settings(before.observers, allowed, index as int),
                    ..before
                }),
            decreases self.observers@.len() - index,
        {
            let ghost held = self.observers@;
            let ghost earlier = allowed;
            let ghost model = with_settings(before.observers, allowed, index as int);
            assert(runtime::observers_of(held)[index as int] == model[index as int]);
            let given = answer(self.observers[index].app());
            let admitted = policy.allows(given);
            let pid: i32 = self.observers[index].pid;
            match self.observers[index].reconcile_manual_accessibility(admitted) {
                Some(setting) => {
                    settings.push((pid, setting));
                },
                None => {},
            }
            proof {
                allowed = allowed.push(admitted);
                lemma_settings_prefix(before.observers, earlier, admitted, index as nat);
                assert(decides(before.observers[index as int].app, *policy, *answer, admitted));
                assert forall|i: int| 0 <= i < index + 1 implies decides(
                    before.observers[i].app,
                    *policy,
                    *answer,
                    #[trigger] allowed[i],
                ) by {
                    if i < index {
                        assert(earlier[i] == allowed[i]);
                    }
                }
                assert forall|i: int| 0 <= i < self.observers@.len() implies (
                #[trigger] self.observers@[i]).wf() by {
                    if i != index {
                        assert(self.observers@[i] == held[i]);
                    }
                }
                let next = with_settings(before.observers, allowed, index + 1);
                assert forall|i: int| 0 <= i < next.len() implies #[trigger] self@.observers[i]
                    == next[i] by {
                    if i != index {
                        assert(self.observers@[i] == held[i]);
                        assert(runtime::observers_of(held)[i] == model[i]);
                    }
                }
                assert(self@.observers =~= next);
            }
            index = index + 1;
        }
        proof {
            assert(decided(before.observers, *policy, *answer, allowed));
            assert forall|i: int| 0 <= i < self@.observers.len() implies (
            #[trigger] self@.observers[i]).wf() && self@.observers[i].pid
                == before.observers[i].pid by {
                assert(self@.observers[i] == self.observers@[i]@);
            }
        }
        settings
    }
}

/// Settings of earlier observers do not depend on later decisions.
proof fn lemma_settings_prefix(
    observers: Seq<ObserverModel>,
    allowed: Seq<bool>,
    more: bool,
    count: nat,
)
    requires
        count <= allowed.len(),
    ensures
        settings_of(observers, allowed.push(more), count) == settings_of(observers, allowed, count),
    decreases count,
{
    if count > 0 {
        lemma_settings_prefix(observers, allowed, more, (count - 1) as nat);
    }
}

/// Whether a setting is that of the observer at a place, which it changes.
pub open spec fn setting_changed(
    observers: Seq<ObserverModel>,
    place: int,
    allowed: bool,
    setting: (i32, bool),
) -> bool {
    0 <= place < observers.len() && observers[place].manual != allowed && setting == (
        observers[place].pid,
        allowed,
    )
}

proof fn lemma_settings(observers: Seq<ObserverModel>, allowed: Seq<bool>, count: nat)
    requires
        count <= observers.len(),
        allowed.len() == observers.len(),
    ensures
        forall|setting: (i32, bool)| #[trigger]
            settings_of(observers, allowed, count).contains(setting) ==> exists|i: int| #[trigger]
                setting_changed(observers, i, allowed[i], setting),
        forall|i: int|
            0 <= i < count && (#[trigger] observers[i]).manual != allowed[i] ==> settings_of(
                observers,
                allowed,
                count,
            ).contains((observers[i].pid, allowed[i])),
    decreases count,
{
    if count > 0 {
        lemma_settings(observers, allowed, (count - 1) as nat);
        let earlier = settings_of(observers, allowed, (count - 1) as nat);
        let now = settings_of(observers, allowed, count);
        assert forall|setting: (i32, bool)| #[trigger] now.contains(setting) implies exists|i: int|
            #[trigger]
            setting_changed(observers, i, allowed[i], setting) by {
            let k = choose|k: int| 0 <= k < now.len() && now[k] == setting;
            if k < earlier.len() {
                assert(earlier[k] == setting);
                assert(earlier.contains(setting));
            } else {
                assert(setting_changed(observers, count - 1, allowed[count - 1], setting));
            }
        }
        assert forall|i: int| 0 <= i < count && (#[trigger] observers[i]).manual
            != allowed[i] implies now.contains((observers[i].pid, allowed[i])) by {
            if i < count - 1 {
                let k = choose|k: int| 0 <= k < earlier.len() && earlier[k] == (
                    observers[i].pid,
                    allowed[i],
                );
                assert(now[k] == earlier[k]);
            } else {
                assert(now.last() == (observers[i].pid, allowed[i]));
            }
        }
    }
}

/// After a replaced policy every observed application is set as the policy answers for it, and a setting is
/// handed back exactly where that changed: the process and its new state.
pub proof fn law_replaced_policies_reach_every_application<D: Fn(&App) -> Option<FilterAnswer>>(
    call: Subject<NativeAx>,
    policy: &ManualAccessibilityPolicy,
    answer: &D,
    settings: Vec<(i32, bool)>,
)
    requires
        call.on.wf(),
        call_ensures(
            NativeAx::reconcile_manual_accessibility::<D>,
            (call.on, policy, answer),
            settings,
        ),
    ensures
        final(call.on)@.observers.len() == old(call.on)@.observers.len(),
        forall|i: int|
            0 <= i < old(call.on)@.observers.len() ==> decides(
                old(call.on)@.observers[i].app,
                *policy,
                *answer,
                (#[trigger] final(call.on)@.observers[i]).manual,
            ) && final(call.on)@.observers[i].pid == old(call.on)@.observers[i].pid
                && final(call.on)@.observers[i].focused == old(call.on)@.observers[i].focused,
        forall|i: int|
            0 <= i < old(call.on)@.observers.len() && old(call.on)@.observers[i].manual != (
            #[trigger] final(call.on)@.observers[i]).manual ==> settings@.contains(
                (old(call.on)@.observers[i].pid, final(call.on)@.observers[i].manual),
            ),
        forall|setting: (i32, bool)| #[trigger]
            settings@.contains(setting) ==> exists|i: int| #[trigger]
                setting_changed(
                    old(call.on)@.observers,
                    i,
                    final(call.on)@.observers[i].manual,
                    setting,
                ),
        final(call.on)@.queue == old(call.on)@.queue,
{
    let before = call.on@;
    let after = final(call.on)@;
    let allowed = choose|allowed: Seq<bool>|
        {
            &&& #[trigger] decided(before.observers, *policy, *answer, allowed)
            &&& settings@ == settings_of(before.observers, allowed, before.observers.len())
            &&& after == (RuntimeModel {
                observers: with_settings(before.observers, allowed, before.observers.len() as int),
                ..before
            })
        };
    lemma_settings(before.observers, allowed, before.observers.len());
    assert forall|i: int| 0 <= i < before.observers.len() implies (
    #[trigger] after.observers[i]).manual == allowed[i] by {}
    assert forall|setting: (i32, bool)| #[trigger] settings@.contains(setting) implies exists|i: int|
        #[trigger]
        setting_changed(before.observers, i, after.observers[i].manual, setting) by {
        let i = choose|i: int| #[trigger]
            setting_changed(before.observers, i, allowed[i], setting);
        assert(after.observers[i].manual == allowed[i]);
        assert(setting_changed(before.observers, i, after.observers[i].manual, setting));
    }
}

/// An attached application is the last of those observed, under its process and name, and is looked at again a
/// second later. Attaching ends with a focus event of it; windows that cannot be observed are counted, and the
/// applications observed before are untouched.
#[verifier::rlimit(60)]
pub proof fn law_attached_applications_are_observed<
    M: FnOnce(bool),
    R: FnOnce() -> Result<String, NativeAxError>,
    W: FnOnce() -> ReadTarget,
    T: FnOnce() -> ReadTarget,
    F: FnOnce(ElementId, bool) -> ValueFieldSnapshot,
    S: FnOnce(ElementId, bool) -> Result<Option<FocusedElementSnapshot>, NativeAxError>,
    V: FnOnce(ElementId, bool, bool) -> ValueSnapshot,
    A: Fn(ElementId) -> Result<(), NativeAxError>,
    B: Fn(ElementId) -> Result<(), NativeAxError>,
    X: Fn(ElementId) -> Result<(), NativeAxError>,
    Y: Fn(ElementId) -> Result<(), NativeAxError>,
>(
    call: Subject<NativeAx>,
    pid: i32,
    app: App,
    manual_accessibility: bool,
    windows_observed: bool,
    set_manual: M,
    read_role: R,
    read_window: W,
    read_target: T,
    moment: FocusMoment,
    policy: &CapturePolicy,
    read_field: F,
    read_snapshot: S,
    read_value: V,
    native: &NativeRegistrations<A, B, X, Y>,
    attached: Vec<NativeAxEvent>,
)
    requires
        call.on.wf(),
        call_ensures(
            NativeAx::attach::<M, R, W, T, F, S, V, A, B, X, Y>,
            (
                call.on,
                pid,
                app,
                manual_accessibility,
                windows_observed,
                set_manual,
                read_role,
                read_window,
                read_target,
                moment,
                policy,
                read_field,
                read_snapshot,
                read_value,
                native,
            ),
            attached,
        ),
        moment.notification_at.nanos + 1_000_000_000 <= u64::MAX,
        call.on@.degraded < u64::MAX,
    ensures
        final(call.on)@.observers.len() == old(call.on)@.observers.len() + 1,
        forall|i: int|
            0 <= i < old(call.on)@.observers.len() ==> (#[trigger] final(call.on)@.observers[i])
                == old(call.on)@.observers[i],
        ({
            let observer = final(call.on)@.observers.last();
            &&& observer.pid == pid && observer.app == app
            &&& observer.manual == manual_accessibility && observer.enabled == old(call.on)@.enabled
            &&& observer.activation.focused_reconcile_at == Some(
                Instant { nanos: (moment.notification_at.nanos + 1_000_000_000) as u64 },
            )
        }),
        attached@.len() >= 1 && (attached@.last() matches NativeAxEvent::UiFocused {
            pid: told,
            observed_at,
            ..
        } && told == pid && observed_at == moment.observed_at),
        manual_accessibility ==> call_ensures(set_manual, (true,), ()),
        final(call.on)@.degraded == old(call.on)@.degraded + if windows_observed {
            0int
        } else {
            1
        },
        final(call.on)@.detached == old(call.on)@.detached && final(call.on)@.queue == old(call.on)@.queue,
{
    let before = call.on@;
    let (role, window, looked, target, outcomes) = choose|
        role: Result<String, NativeAxError>,
        window: ReadTarget,
        looked: ObserverModel,
        target: ReadTarget,
        outcomes: FocusOutcomes,
    |
        {
            &&& call_ensures(read_role, (), role)
            &&& call_ensures(read_window, (), window)
            &&& call_ensures(read_target, (), target)
            &&& #[trigger] dispatch::window_looked_up(
                activated(
                    ObserverModel::fresh(pid, before.enabled, app, manual_accessibility),
                    moment.notification_at,
                    role,
                ),
                window,
                native.add_title,
                native.remove_title,
                looked,
            )
            &&& #[trigger] focus_looked_at(
                looked,
                target,
                moment,
                *policy,
                before.ledger,
                read_field,
                read_snapshot,
                read_value,
                native.add_value,
                native.remove_value,
                outcomes,
            )
            &&& ({
                let (observer, ledger, told) = looked.focused_or_cleared(
                    target,
                    outcomes,
                    *policy,
                    moment,
                    before.ledger,
                );
                &&& final(call.on)@ == (RuntimeModel {
                    observers: before.observers.push(observer),
                    ledger,
                    degraded: if windows_observed {
                        before.degraded
                    } else {
                        channel::next_count(before.degraded)
                    },
                    ..before
                })
                &&& attached@ == told
            })
        };
    let fresh = activated(
        ObserverModel::fresh(pid, before.enabled, app, manual_accessibility),
        moment.notification_at,
        role,
    );
    lemma_windows_keep_the_rest(fresh, window, native.add_title, native.remove_title, looked);
    focus_lifecycle::lemma_focus_told_or_cleared(
        looked,
        target,
        outcomes,
        *policy,
        moment,
        before.ledger,
    );
    focus_lifecycle::lemma_focus_keeps_the_rest(
        looked,
        target,
        outcomes,
        *policy,
        moment,
        before.ledger,
    );
}

proof fn lemma_windows_keep_the_rest<
    A: Fn(ElementId) -> Result<(), NativeAxError>,
    B: Fn(ElementId) -> Result<(), NativeAxError>,
>(before: ObserverModel, target: ReadTarget, add_title: A, remove_title: B, after: ObserverModel)
    requires
        dispatch::window_looked_up(before, target, add_title, remove_title, after),
        before.degraded <= 1,
    ensures
        after.pid == before.pid && after.app == before.app,
        after.manual == before.manual && after.enabled == before.enabled,
        after.activation == before.activation && after.generation == before.generation,
        after.degraded <= 4,
{
}

} // verus!
