//! Handling accessibility notifications.

use vstd::prelude::*;

use super::element::{CapturedValue, ReadWindow, ValueFieldSnapshot, ValueSnapshot};
use super::focus_lifecycle;
use super::health::{AxFailureState, AxRecoverySite};
use super::initial_snapshot::FocusedElementSnapshot;
use super::observer;
use super::observer::{FocusMoment, FocusOutcomes, ObserverModel};
use super::runtime;
use super::runtime::{
    needs_secure_input, secure_input_active, title_event, DecodeStep, NativeAx, QueuedNotification,
    RuntimeModel,
};
use super::types::{ElementId, NativeAxError, NativeAxEvent};
use crate::channel;
use crate::channel::ChannelModel;
use crate::clock::Instant;
use crate::secure_input;
use crate::secure_input::SecureInputProbeError;
use crate::subject::Subject;
use crate::text;
use crate::text::as_text;
use crate::text_capture::authorization::LedgerModel;
use crate::text_capture::policy::CapturePolicy;
use crate::window_list::NativeWindow;

verus! {

/// What reading a focused window or element gives.
pub type ReadTarget = Result<Option<ElementId>, NativeAxError>;

/// The native reads that a notification may need: the focused window and a
/// window's content, the focused element and what is classified, read and
/// captured of it.
pub struct NotificationReads<G, W, E, F, S, V, C> {
    pub focused_window: G,
    pub window: W,
    pub focused_element: E,
    pub field: F,
    pub snapshot: S,
    pub value: V,
    pub capture: C,
}

/// The native registrations of titles and values.
pub struct NativeRegistrations<A, B, X, Y> {
    pub add_title: A,
    pub remove_title: B,
    pub add_value: X,
    pub remove_value: Y,
}

/// The moment of a notification.
pub open spec fn moment_of(queued: QueuedNotification, secure_input: bool) -> FocusMoment {
    FocusMoment {
        notification_at: queued.notification_at,
        observed_at: queued.observed_at,
        secure_input,
    }
}

/// Whether `after` and `event` are what a focused window comes to.
pub open spec fn window_focused<
    W: FnOnce(ElementId) -> ReadWindow,
    A: Fn(ElementId) -> Result<(), NativeAxError>,
    B: Fn(ElementId) -> Result<(), NativeAxError>,
>(
    before: ObserverModel,
    target: ReadTarget,
    queued: QueuedNotification,
    read_window: W,
    add_title: A,
    remove_title: B,
    after: ObserverModel,
    events: Result<Seq<NativeAxEvent>, NativeAxError>,
) -> bool {
    match target {
        Err(error) => after == before && events == Err::<Seq<NativeAxEvent>, NativeAxError>(error),
        Ok(target) => exists|
            window: ReadWindow,
            added: Result<(), NativeAxError>,
            removed: Result<(), NativeAxError>,
        |
            {
                &&& #[trigger] observer::window_read(target, read_window, window)
                &&& #[trigger] before.window_called(target, add_title, remove_title, added, removed)
                &&& after == before.window_refreshed(target, added, removed)
                &&& events == match window {
                    Err(error) => Err(error),
                    Ok(None) => Ok(Seq::empty()),
                    Ok(Some(window)) => Ok(
                        seq![
                            NativeAxEvent::WindowFocused {
                                pid: before.pid,
                                window,
                                observed_at: queued.observed_at,
                            },
                        ],
                    ),
                }
            },
    }
}

/// Whether `after` is the observer once its window was looked up again.
pub open spec fn window_looked_up<
    A: Fn(ElementId) -> Result<(), NativeAxError>,
    B: Fn(ElementId) -> Result<(), NativeAxError>,
>(
    before: ObserverModel,
    target: ReadTarget,
    add_title: A,
    remove_title: B,
    after: ObserverModel,
) -> bool {
    match target {
        Err(_) => after == before.degraded_once(),
        Ok(target) => exists|added: Result<(), NativeAxError>, removed: Result<(), NativeAxError>|
            {
                &&& #[trigger] before.window_called(target, add_title, remove_title, added, removed)
                &&& after == before.window_refreshed(target, added, removed)
            },
    }
}

/// Whether `events` tell of a changed title.
pub open spec fn title_told(
    queued: QueuedNotification,
    window: ReadWindow,
    events: Result<Seq<NativeAxEvent>, NativeAxError>,
) -> bool {
    events == match window {
        Err(error) => Err::<Seq<NativeAxEvent>, NativeAxError>(error),
        Ok(None) => Ok(Seq::empty()),
        Ok(Some(window)) => Ok(
            seq![
                NativeAxEvent::WindowTitleChanged {
                    pid: queued.pid,
                    window,
                    observed_at: queued.observed_at,
                },
            ],
        ),
    }
}

/// Whether an observer, the ledger and the events follow from a notification of
/// the observed application.
pub open spec fn notification_handled<
    G: FnOnce(i32) -> ReadTarget,
    W: FnOnce(ElementId) -> ReadWindow,
    E: FnOnce(i32) -> ReadTarget,
    F: FnOnce(ElementId, bool) -> ValueFieldSnapshot,
    S: FnOnce(ElementId, bool) -> Result<Option<FocusedElementSnapshot>, NativeAxError>,
    V: FnOnce(ElementId, bool, bool) -> ValueSnapshot,
    C: FnOnce(ElementId, Option<NativeWindow>, bool, bool) -> CapturedValue,
    A: Fn(ElementId) -> Result<(), NativeAxError>,
    B: Fn(ElementId) -> Result<(), NativeAxError>,
    X: Fn(ElementId) -> Result<(), NativeAxError>,
    Y: Fn(ElementId) -> Result<(), NativeAxError>,
>(
    before: ObserverModel,
    ledger: LedgerModel,
    queued: QueuedNotification,
    secure_input: bool,
    policy: CapturePolicy,
    reads: NotificationReads<G, W, E, F, S, V, C>,
    native: NativeRegistrations<A, B, X, Y>,
    after: ObserverModel,
    ledger_after: LedgerModel,
    events: Result<Seq<NativeAxEvent>, NativeAxError>,
) -> bool {
    let moment = moment_of(queued, secure_input);
    match runtime::step_of(before, (queued.notification->0)@, queued.element) {
        DecodeStep::Nothing => after == before && ledger_after == ledger && events == Ok::<
            Seq<NativeAxEvent>,
            NativeAxError,
        >(Seq::empty()),
        DecodeStep::FocusedWindow => ledger_after == ledger && exists|target: ReadTarget|
            #[trigger] call_ensures(reads.focused_window, (queued.pid,), target) && window_focused(
                before,
                target,
                queued,
                reads.window,
                native.add_title,
                native.remove_title,
                after,
                events,
            ),
        DecodeStep::RefreshWindow => ledger_after == ledger && events == Ok::<
            Seq<NativeAxEvent>,
            NativeAxError,
        >(Seq::empty()) && exists|target: ReadTarget| #[trigger]
            call_ensures(reads.focused_window, (queued.pid,), target) && window_looked_up(
                before,
                target,
                native.add_title,
                native.remove_title,
                after,
            ),
        DecodeStep::TitleChanged => after == before && ledger_after == ledger && exists|
            window: ReadWindow,
        | #[trigger]
            call_ensures(reads.window, (queued.element,), window) && title_told(
                queued,
                window,
                events,
            ),
        DecodeStep::FocusedElement => exists|target: ReadTarget, outcomes: FocusOutcomes|
            {
                &&& #[trigger] call_ensures(reads.focused_element, (queued.pid,), target)
                &&& #[trigger] outcomes.called(
                    before,
                    target,
                    policy,
                    secure_input,
                    reads.field,
                    reads.snapshot,
                    reads.value,
                    native.add_value,
                    native.remove_value,
                )
                &&& outcomes.released_or_cleared(
                    before,
                    target,
                    policy,
                    moment,
                    ledger,
                    native.remove_value,
                )
                &&& ({
                    let (observer, resolved, told) = before.focused_or_cleared(
                        target,
                        outcomes,
                        policy,
                        moment,
                        ledger,
                    );
                    after == observer && ledger_after == resolved && events == Ok::<
                        Seq<NativeAxEvent>,
                        NativeAxError,
                    >(told)
                })
            },
        DecodeStep::ValueChanged => exists|
            captured: CapturedValue,
            outcome: Result<(), NativeAxError>,
        |
            {
                &&& call_ensures(
                    reads.capture,
                    (
                        (before.focused->0).element,
                        (before.focused->0).context.window,
                        before.enabled,
                        secure_input,
                    ),
                    captured,
                )
                &&& focus_lifecycle::element_step_called(
                    before.value_step(captured, secure_input),
                    (before.focused->0).element,
                    native.add_value,
                    native.remove_value,
                    outcome,
                )
                &&& ({
                    let (observer, resolved, told) = #[trigger] before.value_changed(
                        captured,
                        outcome,
                        moment,
                        ledger,
                    );
                    after == observer && ledger_after == resolved && events == Ok::<
                        Seq<NativeAxEvent>,
                        NativeAxError,
                    >(told)
                })
            },
    }
}

/// Whether the runtime and the events follow from a notification. One without a
/// name is an error; one of no observed application changes nothing.
pub open spec fn delivered<
    G: FnOnce(i32) -> ReadTarget,
    W: FnOnce(ElementId) -> ReadWindow,
    E: FnOnce(i32) -> ReadTarget,
    F: FnOnce(ElementId, bool) -> ValueFieldSnapshot,
    S: FnOnce(ElementId, bool) -> Result<Option<FocusedElementSnapshot>, NativeAxError>,
    V: FnOnce(ElementId, bool, bool) -> ValueSnapshot,
    C: FnOnce(ElementId, Option<NativeWindow>, bool, bool) -> CapturedValue,
    A: Fn(ElementId) -> Result<(), NativeAxError>,
    B: Fn(ElementId) -> Result<(), NativeAxError>,
    X: Fn(ElementId) -> Result<(), NativeAxError>,
    Y: Fn(ElementId) -> Result<(), NativeAxError>,
>(
    before: RuntimeModel,
    queued: QueuedNotification,
    secure_input: bool,
    policy: CapturePolicy,
    reads: NotificationReads<G, W, E, F, S, V, C>,
    native: NativeRegistrations<A, B, X, Y>,
    after: RuntimeModel,
    events: Result<Seq<NativeAxEvent>, NativeAxError>,
) -> bool {
    if queued.notification is None {
        &&& after == before
        &&& events matches Err(error) && error.code == -1 && error.operation@
            == "AX notification decoding"@
    } else if !before.observes(queued.pid) {
        &&& after == before
        &&& events == Ok::<Seq<NativeAxEvent>, NativeAxError>(Seq::empty())
    } else {
        forall|i: int|
            0 <= i < before.observers.len() && (#[trigger] before.observers[i]).pid == queued.pid
                ==> exists|observer: ObserverModel, ledger: LedgerModel|
                {
                    &&& #[trigger] notification_handled(
                        before.observers[i],
                        before.ledger,
                        queued,
                        secure_input,
                        policy,
                        reads,
                        native,
                        observer,
                        ledger,
                        events,
                    )
                    &&& after == (RuntimeModel {
                        observers: before.observers.update(i, observer),
                        ledger,
                        ..before
                    })
                }
    }
}

/// Whether the calls that a notification of an observed application makes can be
/// made, whatever the earlier ones answer.
pub open spec fn notification_ready<
    G: FnOnce(i32) -> ReadTarget,
    W: FnOnce(ElementId) -> ReadWindow,
    E: FnOnce(i32) -> ReadTarget,
    F: FnOnce(ElementId, bool) -> ValueFieldSnapshot,
    S: FnOnce(ElementId, bool) -> Result<Option<FocusedElementSnapshot>, NativeAxError>,
    V: FnOnce(ElementId, bool, bool) -> ValueSnapshot,
    C: FnOnce(ElementId, Option<NativeWindow>, bool, bool) -> CapturedValue,
    A: Fn(ElementId) -> Result<(), NativeAxError>,
    B: Fn(ElementId) -> Result<(), NativeAxError>,
    X: Fn(ElementId) -> Result<(), NativeAxError>,
    Y: Fn(ElementId) -> Result<(), NativeAxError>,
>(
    before: ObserverModel,
    queued: QueuedNotification,
    secure_input: bool,
    policy: CapturePolicy,
    reads: NotificationReads<G, W, E, F, S, V, C>,
    native: NativeRegistrations<A, B, X, Y>,
) -> bool {
    match runtime::step_of(before, (queued.notification->0)@, queued.element) {
        DecodeStep::Nothing => true,
        DecodeStep::FocusedWindow => {
            &&& call_requires(reads.focused_window, (queued.pid,))
            &&& forall|target: ReadTarget| #[trigger]
                call_ensures(reads.focused_window, (queued.pid,), target) ==> (
                target matches Ok(found) ==> {
                    &&& found matches Some(element) ==> call_requires(reads.window, (element,))
                    &&& before.window_ready(found, native.add_title, native.remove_title)
                })
        },
        DecodeStep::RefreshWindow => {
            &&& call_requires(reads.focused_window, (queued.pid,))
            &&& forall|target: ReadTarget| #[trigger]
                call_ensures(reads.focused_window, (queued.pid,), target) ==> (
                target matches Ok(found) ==> before.window_ready(
                    found,
                    native.add_title,
                    native.remove_title,
                ))
        },
        DecodeStep::TitleChanged => call_requires(reads.window, (queued.element,)),
        DecodeStep::FocusedElement => {
            &&& call_requires(reads.focused_element, (queued.pid,))
            &&& forall|target: ReadTarget| #[trigger]
                call_ensures(reads.focused_element, (queued.pid,), target)
                    ==> before.focus_or_clear_ready(
                    target,
                    policy,
                    secure_input,
                    reads.field,
                    reads.snapshot,
                    reads.value,
                    native.add_value,
                    native.remove_value,
                )
        },
        DecodeStep::ValueChanged => before.value_ready(
            secure_input,
            reads.capture,
            native.add_value,
            native.remove_value,
        ),
    }
}

/// Whether the calls that a notification makes can be made.
pub open spec fn delivery_ready<
    G: FnOnce(i32) -> ReadTarget,
    W: FnOnce(ElementId) -> ReadWindow,
    E: FnOnce(i32) -> ReadTarget,
    F: FnOnce(ElementId, bool) -> ValueFieldSnapshot,
    S: FnOnce(ElementId, bool) -> Result<Option<FocusedElementSnapshot>, NativeAxError>,
    V: FnOnce(ElementId, bool, bool) -> ValueSnapshot,
    C: FnOnce(ElementId, Option<NativeWindow>, bool, bool) -> CapturedValue,
    A: Fn(ElementId) -> Result<(), NativeAxError>,
    B: Fn(ElementId) -> Result<(), NativeAxError>,
    X: Fn(ElementId) -> Result<(), NativeAxError>,
    Y: Fn(ElementId) -> Result<(), NativeAxError>,
>(
    before: RuntimeModel,
    queued: QueuedNotification,
    secure_input: bool,
    policy: CapturePolicy,
    reads: NotificationReads<G, W, E, F, S, V, C>,
    native: NativeRegistrations<A, B, X, Y>,
) -> bool {
    queued.notification is Some ==> forall|i: int|
        0 <= i < before.observers.len() && (#[trigger] before.observers[i]).pid == queued.pid
            ==> notification_ready(
            before.observers[i],
            queued,
            secure_input,
            policy,
            reads,
            native,
        )
}

fn one_event(event: Result<Option<NativeAxEvent>, NativeAxError>) -> (events: Result<
    Vec<NativeAxEvent>,
    NativeAxError,
>)
    ensures
        focus_lifecycle::events_view(events) == match event {
            Err(error) => Err::<Seq<NativeAxEvent>, NativeAxError>(error),
            Ok(None) => Ok(Seq::empty()),
            Ok(Some(event)) => Ok(seq![event]),
        },
{
    match event {
        Err(error) => Err(error),
        Ok(None) => {
            let events: Vec<NativeAxEvent> = Vec::new();
            Ok(events)
        },
        Ok(Some(event)) => {
            let mut events: Vec<NativeAxEvent> = Vec::new();
            let ghost told = event;
            events.push(event);
            assert(events@ =~= seq![told]);
            Ok(events)
        },
    }
}

/// Observers stay with their application, whatever they are told.
proof fn lemma_handled_keeps_pid<
    G: FnOnce(i32) -> ReadTarget,
    W: FnOnce(ElementId) -> ReadWindow,
    E: FnOnce(i32) -> ReadTarget,
    F: FnOnce(ElementId, bool) -> ValueFieldSnapshot,
    S: FnOnce(ElementId, bool) -> Result<Option<FocusedElementSnapshot>, NativeAxError>,
    V: FnOnce(ElementId, bool, bool) -> ValueSnapshot,
    C: FnOnce(ElementId, Option<NativeWindow>, bool, bool) -> CapturedValue,
    A: Fn(ElementId) -> Result<(), NativeAxError>,
    B: Fn(ElementId) -> Result<(), NativeAxError>,
    X: Fn(ElementId) -> Result<(), NativeAxError>,
    Y: Fn(ElementId) -> Result<(), NativeAxError>,
>(
    before: ObserverModel,
    ledger: LedgerModel,
    queued: QueuedNotification,
    secure_input: bool,
    policy: CapturePolicy,
    reads: NotificationReads<G, W, E, F, S, V, C>,
    native: NativeRegistrations<A, B, X, Y>,
    after: ObserverModel,
    ledger_after: LedgerModel,
    events: Result<Seq<NativeAxEvent>, NativeAxError>,
)
    requires
        notification_handled(
            before,
            ledger,
            queued,
            secure_input,
            policy,
            reads,
            native,
            after,
            ledger_after,
            events,
        ),
    ensures
        after.pid == before.pid,
{
}

impl NativeAx {
    /// Handles a notification: finds its observer and lets it take in the focused
    /// window, a title, the focused element or a value. A notification without a
    /// name is an error; one that is of no observed application, or not of its
    /// current target, changes nothing.
    pub fn handle_notification<
        G: FnOnce(i32) -> ReadTarget,
        W: FnOnce(ElementId) -> ReadWindow,
        E: FnOnce(i32) -> ReadTarget,
        F: FnOnce(ElementId, bool) -> ValueFieldSnapshot,
        S: FnOnce(ElementId, bool) -> Result<Option<FocusedElementSnapshot>, NativeAxError>,
        V: FnOnce(ElementId, bool, bool) -> ValueSnapshot,
        C: FnOnce(ElementId, Option<NativeWindow>, bool, bool) -> CapturedValue,
        A: Fn(ElementId) -> Result<(), NativeAxError>,
        B: Fn(ElementId) -> Result<(), NativeAxError>,
        X: Fn(ElementId) -> Result<(), NativeAxError>,
        Y: Fn(ElementId) -> Result<(), NativeAxError>,
    >(
        &mut self,
        queued: QueuedNotification,
        secure_input: bool,
        policy: &CapturePolicy,
        reads: NotificationReads<G, W, E, F, S, V, C>,
        native: &NativeRegistrations<A, B, X, Y>,
    ) -> (events: Result<Vec<NativeAxEvent>, NativeAxError>)
        requires
            old(self).wf(),
            delivery_ready(old(self)@, queued, secure_input, *policy, reads, *native),
        ensures
            final(self).wf(),
            delivered(
                old(self)@,
                queued,
                secure_input,
                *policy,
                reads,
                *native,
                final(self)@,
                focus_lifecycle::events_view(events),
            ),
    {
        let ghost before = self@;
        let ghost held = self.observers@;
        let step = match self.decode(&queued) {
            Err(error) => {
                return Err(error);
            },
            Ok(step) => step,
        };
        let index = match self.position(queued.pid) {
            None => {
                let events: Vec<NativeAxEvent> = Vec::new();
                return Ok(events);
            },
            Some(index) => index,
        };
        let ghost observer = before.observers[index as int];
        proof {
            assert(observer == held[index as int]@);
            assert forall|i: int| 0 <= i < before.observers.len() && (
            #[trigger] before.observers[i]).pid == queued.pid implies i == index by {
                if i < index {
                    assert(before.observers[i].pid != before.observers[index as int].pid);
                } else if i > index {
                    assert(before.observers[index as int].pid != before.observers[i].pid);
                }
            }
        }
        let moment = FocusMoment {
            notification_at: queued.notification_at,
            observed_at: queued.observed_at,
            secure_input,
        };
        let ghost reading = reads;
        let NotificationReads {
            focused_window,
            window,
            focused_element,
            field,
            snapshot,
            value,
            capture,
        } = reads;
        let events = match step {
            DecodeStep::Nothing => {
                let events: Vec<NativeAxEvent> = Vec::new();
                Ok(events)
            },
            DecodeStep::FocusedWindow => {
                let target = focused_window(queued.pid);
                one_event(
                    self.observers[index].focused_window_event(
                        target,
                        queued.observed_at,
                        window,
                        &native.add_title,
                        &native.remove_title,
                    ),
                )
            },
            DecodeStep::RefreshWindow => {
                let target = focused_window(queued.pid);
                self.observers[index].refresh_window_target(
                    target,
                    &native.add_title,
                    &native.remove_title,
                );
                let events: Vec<NativeAxEvent> = Vec::new();
                Ok(events)
            },
            DecodeStep::TitleChanged => {
                let window = window(queued.element);
                one_event(title_event(&queued, window))
            },
            DecodeStep::FocusedElement => {
                let target = focused_element(queued.pid);
                Ok(
                    self.observers[index].focused_element_or_clear(
                        target,
                        moment,
                        policy,
                        &mut self.authorizations,
                        field,
                        snapshot,
                        value,
                        &native.add_value,
                        &native.remove_value,
                    ),
                )
            },
            DecodeStep::ValueChanged => {
                Ok(
                    self.observers[index].value_changed_events_with(
                        moment,
                        &mut self.authorizations,
                        capture,
                        &native.add_value,
                        &native.remove_value,
                    ),
                )
            },
        };
        proof {
            let after = self.observers@[index as int]@;
            assert(notification_handled(
                observer,
                before.ledger,
                queued,
                secure_input,
                *policy,
                reading,
                *native,
                after,
                self.authorizations@,
                focus_lifecycle::events_view(events),
            ));
            lemma_handled_keeps_pid(
                observer,
                before.ledger,
                queued,
                secure_input,
                *policy,
                reading,
                *native,
                after,
                self.authorizations@,
                focus_lifecycle::events_view(events),
            );
            assert(self@.observers =~= before.observers.update(index as int, after));
        }
        events
    }
}

/// Whether secure input counts as on, and what asking for it leaves behind.
pub open spec fn secure_asked<Q: FnOnce() -> Result<bool, SecureInputProbeError>>(
    before: RuntimeModel,
    probe: Option<Q>,
    site: AxRecoverySite,
    active: bool,
    after: RuntimeModel,
) -> bool {
    if !before.enabled {
        !active && after == before
    } else if probe is None {
        active && after == before
    } else {
        exists|answer: Result<bool, SecureInputProbeError>|
            {
                &&& #[trigger] call_ensures(probe->0, (), answer)
                &&& active == secure_input::counts_as_secure(Some(answer))
                &&& after == (RuntimeModel {
                    degraded: if answer is Err {
                        channel::next_count(before.degraded)
                    } else {
                        before.degraded
                    },
                    failures: if answer is Err {
                        AxFailureState::failed(site)
                    } else {
                        before.failures.recovered(site)
                    },
                    ..before
                })
            }
    }
}

/// Whether secure input counts as on for a notification. It is asked for only
/// where text may be read.
pub open spec fn secure_for<Q: FnOnce() -> Result<bool, SecureInputProbeError>>(
    before: RuntimeModel,
    queued: QueuedNotification,
    probe: Option<Q>,
    active: bool,
    after: RuntimeModel,
) -> bool {
    if runtime::asks_secure_input(text::text_view(queued.notification)) {
        secure_asked(before, probe, AxRecoverySite::SecureInputDecode, active, after)
    } else {
        !active && after == before
    }
}

/// The runtime once the event tap's keystrokes were taken in.
pub open spec fn received(before: RuntimeModel) -> RuntimeModel {
    RuntimeModel { ledger: before.ledger.delivered(), ..before }
}

/// The runtime without its oldest notification.
pub open spec fn without_first(before: RuntimeModel) -> RuntimeModel {
    RuntimeModel {
        queue: ChannelModel { items: before.queue.items.drop_first(), ..before.queue },
        ..before
    }
}

/// The runtime and the events of a handled notification. A failure is counted.
pub open spec fn settled(
    handled: RuntimeModel,
    events: Result<Seq<NativeAxEvent>, NativeAxError>,
) -> (RuntimeModel, Seq<NativeAxEvent>) {
    match events {
        Ok(events) => (handled, events),
        Err(_) => (
            RuntimeModel { degraded: channel::next_count(handled.degraded), ..handled },
            Seq::empty(),
        ),
    }
}

/// Whether the runtime and the events follow from the notification whose turn it
/// is.
pub open spec fn turn_taken<
    Q: FnOnce() -> Result<bool, SecureInputProbeError>,
    G: FnOnce(i32) -> ReadTarget,
    W: FnOnce(ElementId) -> ReadWindow,
    E: FnOnce(i32) -> ReadTarget,
    F: FnOnce(ElementId, bool) -> ValueFieldSnapshot,
    S: FnOnce(ElementId, bool) -> Result<Option<FocusedElementSnapshot>, NativeAxError>,
    V: FnOnce(ElementId, bool, bool) -> ValueSnapshot,
    C: FnOnce(ElementId, Option<NativeWindow>, bool, bool) -> CapturedValue,
    A: Fn(ElementId) -> Result<(), NativeAxError>,
    B: Fn(ElementId) -> Result<(), NativeAxError>,
    X: Fn(ElementId) -> Result<(), NativeAxError>,
    Y: Fn(ElementId) -> Result<(), NativeAxError>,
>(
    before: RuntimeModel,
    probe: Option<Q>,
    policy: CapturePolicy,
    reads: NotificationReads<G, W, E, F, S, V, C>,
    native: NativeRegistrations<A, B, X, Y>,
    after: RuntimeModel,
    told: Seq<NativeAxEvent>,
) -> bool {
    if before.queue.items.len() == 0 {
        after == received(before) && told == Seq::<NativeAxEvent>::empty()
    } else {
        let queued = before.queue.items[0];
        exists|
            active: bool,
            asked: RuntimeModel,
            handled: RuntimeModel,
            events: Result<Seq<NativeAxEvent>, NativeAxError>,
        |
            {
                &&& #[trigger] secure_for(
                    without_first(received(before)),
                    queued,
                    probe,
                    active,
                    asked,
                )
                &&& #[trigger] delivered(
                    asked,
                    queued,
                    active,
                    policy,
                    reads,
                    native,
                    handled,
                    events,
                )
                &&& (after, told) == settled(handled, events)
            }
    }
}

impl NativeAx {
    /// Asks whether secure input is on.
    pub fn ask_secure_input<Q: FnOnce() -> Result<bool, SecureInputProbeError>>(
        &mut self,
        probe: Option<Q>,
        site: AxRecoverySite,
    ) -> (active: bool)
        requires
            old(self).wf(),
            old(self)@.enabled && probe is Some ==> call_requires(probe->0, ()),
        ensures
            final(self).wf(),
            secure_asked(old(self)@, probe, site, active, final(self)@),
    {
        secure_input_active(
            self.capture_text_content,
            probe,
            &mut self.degraded,
            &mut self.failures,
            site,
        )
    }

    /// Polls: takes in the event tap's keystrokes, handles the notification whose
    /// turn it is, and sends the values that are due.
    pub fn poll<
        Q: Copy + FnOnce() -> Result<bool, SecureInputProbeError>,
        N: FnOnce() -> Instant,
        G: FnOnce(i32) -> ReadTarget,
        W: FnOnce(ElementId) -> ReadWindow,
        E: FnOnce(i32) -> ReadTarget,
        F: FnOnce(ElementId, bool) -> ValueFieldSnapshot,
        S: FnOnce(ElementId, bool) -> Result<Option<FocusedElementSnapshot>, NativeAxError>,
        V: FnOnce(ElementId, bool, bool) -> ValueSnapshot,
        C: FnOnce(ElementId, Option<NativeWindow>, bool, bool) -> CapturedValue,
        A: Fn(ElementId) -> Result<(), NativeAxError>,
        B: Fn(ElementId) -> Result<(), NativeAxError>,
        X: Fn(ElementId) -> Result<(), NativeAxError>,
        Y: Fn(ElementId) -> Result<(), NativeAxError>,
    >(
        &mut self,
        probe: Option<Q>,
        policy: &CapturePolicy,
        reads: NotificationReads<G, W, E, F, S, V, C>,
        native: &NativeRegistrations<A, B, X, Y>,
        read_now: N,
    ) -> (events: Vec<NativeAxEvent>)
        requires
            old(self).wf(),
            old(self)@.enabled && probe is Some ==> call_requires(probe->0, ()),
            call_requires(read_now, ()),
            old(self)@.queue.items.len() > 0 ==> forall|active: bool, asked: RuntimeModel|
                #[trigger]
                secure_for(
                    without_first(received(old(self)@)),
                    old(self)@.queue.items[0],
                    probe,
                    active,
                    asked,
                ) ==> delivery_ready(
                    asked,
                    old(self)@.queue.items[0],
                    active,
                    *policy,
                    reads,
                    *native,
                ),
        ensures
            final(self).wf(),
            exists|
                taken: RuntimeModel,
                told: Seq<NativeAxEvent>,
                active: bool,
                ready: RuntimeModel,
                now: Instant,
            |
                {
                    &&& #[trigger] turn_taken(
                        old(self)@,
                        probe,
                        *policy,
                        reads,
                        *native,
                        taken,
                        told,
                    )
                    &&& #[trigger] secure_asked(
                        taken,
                        probe,
                        AxRecoverySite::SecureInputPoll,
                        active,
                        ready,
                    )
                    &&& #[trigger] call_ensures(read_now, (), now)
                    &&& final(self)@ == ready.due(now, active).0
                    &&& events@ == told + ready.due(now, active).1
                },
    {
        let ghost before = self@;
        let mut events: Vec<NativeAxEvent> = Vec::new();
        match self.next_notification() {
            None => {},
            Some(queued) => {
                let ghost first = queued;
                let ghost waiting = self@;
                assert(waiting == without_first(received(before)));
                let needed = needs_secure_input(as_text(&queued.notification));
                let active = if needed {
                    self.ask_secure_input(probe, AxRecoverySite::SecureInputDecode)
                } else {
                    false
                };
                let ghost asked = self@;
                assert(secure_for(waiting, first, probe, active, asked));
                let told = self.handle_notification(queued, active, policy, reads, native);
                let ghost handled = self@;
                let ghost outcome = focus_lifecycle::events_view(told);
                assert(delivered(
                    asked,
                    first,
                    active,
                    *policy,
                    reads,
                    *native,
                    handled,
                    outcome,
                ));
                match told {
                    Ok(told) => {
                        events = told;
                    },
                    Err(_) => {
                        self.record_degraded();
                    },
                }
                assert((self@, events@) == settled(handled, outcome));
            },
        }
        let ghost taken = self@;
        let ghost told = events@;
        assert(turn_taken(before, probe, *policy, reads, *native, taken, told));
        let now = read_now();
        let active = self.ask_secure_input(probe, AxRecoverySite::SecureInputPoll);
        let ghost ready = self@;
        let mut due = self.take_due(now, active);
        events.append(&mut due);
        assert(events@ =~= told + ready.due(now, active).1);
        events
    }
}

/// A notification changes nothing of the other applications, and nothing of what
/// is queued or detached.
pub proof fn law_notification_stays_in_its_application<
    G: FnOnce(i32) -> ReadTarget,
    W: FnOnce(ElementId) -> ReadWindow,
    E: FnOnce(i32) -> ReadTarget,
    F: FnOnce(ElementId, bool) -> ValueFieldSnapshot,
    S: FnOnce(ElementId, bool) -> Result<Option<FocusedElementSnapshot>, NativeAxError>,
    V: FnOnce(ElementId, bool, bool) -> ValueSnapshot,
    C: FnOnce(ElementId, Option<NativeWindow>, bool, bool) -> CapturedValue,
    A: Fn(ElementId) -> Result<(), NativeAxError>,
    B: Fn(ElementId) -> Result<(), NativeAxError>,
    X: Fn(ElementId) -> Result<(), NativeAxError>,
    Y: Fn(ElementId) -> Result<(), NativeAxError>,
>(
    before: RuntimeModel,
    queued: QueuedNotification,
    secure_input: bool,
    policy: CapturePolicy,
    reads: NotificationReads<G, W, E, F, S, V, C>,
    native: NativeRegistrations<A, B, X, Y>,
    after: RuntimeModel,
    events: Result<Seq<NativeAxEvent>, NativeAxError>,
)
    requires
        delivered(before, queued, secure_input, policy, reads, native, after, events),
    ensures
        after.observers.len() == before.observers.len(),
        forall|i: int|
            0 <= i < before.observers.len() && (#[trigger] before.observers[i]).pid != queued.pid
                ==> after.observers[i] == before.observers[i],
        after.detached == before.detached,
        after.queue == before.queue,
{
    if queued.notification is Some && before.observes(queued.pid) {
        let i = choose|i: int|
            0 <= i < before.observers.len() && (#[trigger] before.observers[i]).pid == queued.pid;
        assert(before.observers[i].pid == queued.pid);
    }
}

/// What the events of a notification tell, by its name. A focused window is told as such and a new window not
/// at all; a title is told of the window that has it; a focus ends with a focus event; a value is told of the
/// focused element only. All of them tell the process and moment of the notification.
pub open spec fn told_by_name(
    observer: ObserverModel,
    queued: QueuedNotification,
    events: Seq<NativeAxEvent>,
) -> bool {
    let name = queued.notification->0@;
    &&& name == "AXWindowCreated"@ ==> events.len() == 0
    &&& name == "AXFocusedWindowChanged"@ ==> events.len() <= 1 && forall|i: int|
        0 <= i < events.len() ==> (#[trigger] events[i] matches NativeAxEvent::WindowFocused {
            pid,
            observed_at,
            ..
        } && pid == observer.pid && observed_at == queued.observed_at)
    &&& name == "AXTitleChanged"@ ==> events.len() <= 1 && (observer.window_target != Some(
        queued.element,
    ) ==> events.len() == 0) && forall|i: int|
        0 <= i < events.len() ==> (#[trigger] events[i] matches NativeAxEvent::WindowTitleChanged {
            pid,
            observed_at,
            ..
        } && pid == queued.pid && observed_at == queued.observed_at)
    &&& name == "AXFocusedUIElementChanged"@ ==> events.len() >= 1 && (events.last()
        matches NativeAxEvent::UiFocused { pid, observed_at, .. } && pid == observer.pid && observed_at
        == queued.observed_at)
    &&& name == "AXValueChanged"@ ==> events.len() <= 2 && (!(observer.focused is Some
        && observer.focused->0.element == queued.element) ==> events.len() == 0) && forall|i: int|
        0 <= i < events.len() ==> (#[trigger] events[i] is UiValueChanged || events[i] is UiFocused)
    &&& name != "AXWindowCreated"@ && name != "AXFocusedWindowChanged"@ && name != "AXTitleChanged"@
        && name != "AXFocusedUIElementChanged"@ && name != "AXValueChanged"@ ==> events.len() == 0
}

#[verifier::rlimit(60)]
proof fn lemma_told_by_name<
    G: FnOnce(i32) -> ReadTarget,
    W: FnOnce(ElementId) -> ReadWindow,
    E: FnOnce(i32) -> ReadTarget,
    F: FnOnce(ElementId, bool) -> ValueFieldSnapshot,
    S: FnOnce(ElementId, bool) -> Result<Option<FocusedElementSnapshot>, NativeAxError>,
    V: FnOnce(ElementId, bool, bool) -> ValueSnapshot,
    C: FnOnce(ElementId, Option<NativeWindow>, bool, bool) -> CapturedValue,
    A: Fn(ElementId) -> Result<(), NativeAxError>,
    B: Fn(ElementId) -> Result<(), NativeAxError>,
    X: Fn(ElementId) -> Result<(), NativeAxError>,
    Y: Fn(ElementId) -> Result<(), NativeAxError>,
>(
    before: ObserverModel,
    ledger: LedgerModel,
    queued: QueuedNotification,
    secure_input: bool,
    policy: CapturePolicy,
    reads: NotificationReads<G, W, E, F, S, V, C>,
    native: NativeRegistrations<A, B, X, Y>,
    after: ObserverModel,
    ledger_after: LedgerModel,
    events: Result<Seq<NativeAxEvent>, NativeAxError>,
)
    requires
        queued.notification is Some,
        before.generation < u64::MAX,
        before.degraded + 1 < u64::MAX,
        notification_handled(
            before,
            ledger,
            queued,
            secure_input,
            policy,
            reads,
            native,
            after,
            ledger_after,
            events,
        ),
    ensures
        events is Ok ==> told_by_name(before, queued, events->Ok_0),
{
    reveal_strlit("AXFocusedWindowChanged");
    reveal_strlit("AXWindowCreated");
    reveal_strlit("AXTitleChanged");
    reveal_strlit("AXFocusedUIElementChanged");
    reveal_strlit("AXValueChanged");
    assert("AXFocusedWindowChanged"@.len() == 22);
    assert("AXFocusedUIElementChanged"@.len() == 25);
    assert("AXTitleChanged"@.len() == 14);
    assert("AXValueChanged"@.len() == 14);
    assert("AXWindowCreated"@.len() == 15);
    assert("AXTitleChanged"@[2] == 'T');
    assert("AXValueChanged"@[2] == 'V');
    if queued.notification->0@ == "AXFocusedUIElementChanged"@ {
        let moment = moment_of(queued, secure_input);
        let (target, outcomes) = choose|target: ReadTarget, outcomes: FocusOutcomes|
            {
                &&& #[trigger] call_ensures(reads.focused_element, (queued.pid,), target)
                &&& #[trigger] outcomes.called(
                    before,
                    target,
                    policy,
                    secure_input,
                    reads.field,
                    reads.snapshot,
                    reads.value,
                    native.add_value,
                    native.remove_value,
                )
                &&& outcomes.released_or_cleared(
                    before,
                    target,
                    policy,
                    moment,
                    ledger,
                    native.remove_value,
                )
                &&& ({
                    let (observer, resolved, told) = before.focused_or_cleared(
                        target,
                        outcomes,
                        policy,
                        moment,
                        ledger,
                    );
                    after == observer && ledger_after == resolved && events == Ok::<
                        Seq<NativeAxEvent>,
                        NativeAxError,
                    >(told)
                })
            };
        focus_lifecycle::lemma_focus_told_or_cleared(
            before,
            target,
            outcomes,
            policy,
            moment,
            ledger,
        );
    }
}

/// A notification without a name is an error and changes nothing. One of an application that is not observed
/// tells nothing and changes nothing. Any other tells what its name says, of the observer of its process.
#[verifier::rlimit(60)]
pub proof fn law_notifications_are_told_by_name<
    G: FnOnce(i32) -> ReadTarget,
    W: FnOnce(ElementId) -> ReadWindow,
    E: FnOnce(i32) -> ReadTarget,
    F: FnOnce(ElementId, bool) -> ValueFieldSnapshot,
    S: FnOnce(ElementId, bool) -> Result<Option<FocusedElementSnapshot>, NativeAxError>,
    V: FnOnce(ElementId, bool, bool) -> ValueSnapshot,
    C: FnOnce(ElementId, Option<NativeWindow>, bool, bool) -> CapturedValue,
    A: Fn(ElementId) -> Result<(), NativeAxError>,
    B: Fn(ElementId) -> Result<(), NativeAxError>,
    X: Fn(ElementId) -> Result<(), NativeAxError>,
    Y: Fn(ElementId) -> Result<(), NativeAxError>,
>(
    call: Subject<NativeAx>,
    queued: QueuedNotification,
    secure_input: bool,
    policy: &CapturePolicy,
    reads: NotificationReads<G, W, E, F, S, V, C>,
    native: &NativeRegistrations<A, B, X, Y>,
    events: Result<Vec<NativeAxEvent>, NativeAxError>,
    index: int,
)
    requires
        call.on.wf(),
        call_ensures(
            NativeAx::handle_notification::<G, W, E, F, S, V, C, A, B, X, Y>,
            (call.on, queued, secure_input, policy, reads, native),
            events,
        ),
        0 <= index < call.on@.observers.len(),
        call.on@.observers[index].generation < u64::MAX,
        call.on@.observers[index].degraded + 1 < u64::MAX,
    ensures
        queued.notification is None ==> events is Err && final(call.on)@ == old(call.on)@,
        queued.notification is Some && !old(call.on)@.observes(queued.pid) ==> events is Ok
            && events->Ok_0@.len() == 0 && final(call.on)@ == old(call.on)@,
        queued.notification is Some && old(call.on)@.observers[index].pid == queued.pid && events is Ok
            ==> told_by_name(old(call.on)@.observers[index], queued, events->Ok_0@),
        final(call.on)@.queue == old(call.on)@.queue && final(call.on)@.detached == old(call.on)@.detached,
{
    let before = call.on@;
    let after = final(call.on)@;
    let told = focus_lifecycle::events_view(events);
    law_notification_stays_in_its_application(
        before,
        queued,
        secure_input,
        *policy,
        reads,
        *native,
        after,
        told,
    );
    if queued.notification is Some && before.observers[index].pid == queued.pid {
        assert(before.observes(queued.pid));
        let (observer, ledger) = choose|observer: ObserverModel, ledger: LedgerModel|
            {
                &&& #[trigger] notification_handled(
                    before.observers[index],
                    before.ledger,
                    queued,
                    secure_input,
                    *policy,
                    reads,
                    *native,
                    observer,
                    ledger,
                    told,
                )
                &&& after == (RuntimeModel {
                    observers: before.observers.update(index, observer),
                    ledger,
                    ..before
                })
            };
        lemma_told_by_name(
            before.observers[index],
            before.ledger,
            queued,
            secure_input,
            *policy,
            reads,
            *native,
            observer,
            ledger,
            told,
        );
    }
}

/// Asking for secure input counts it as on where it is, where it cannot be told and where nothing tells it, and
/// never while no text is captured; only a failed question is counted.
pub proof fn law_asked_secure_input_is_on_unless_told<
    Q: FnOnce() -> Result<bool, SecureInputProbeError>,
>(call: Subject<NativeAx>, probe: Option<Q>, site: AxRecoverySite, active: bool)
    requires
        call.on.wf(),
        call_ensures(NativeAx::ask_secure_input::<Q>, (call.on, probe, site), active),
        call.on@.degraded < u64::MAX,
    ensures
        !old(call.on)@.enabled ==> !active && final(call.on)@ == old(call.on)@,
        old(call.on)@.enabled && probe is None ==> active && final(call.on)@ == old(call.on)@,
        old(call.on)@.enabled && probe is Some && !active ==> call_ensures(
            probe->0,
            (),
            Ok::<bool, SecureInputProbeError>(false),
        ) && final(call.on)@.degraded == old(call.on)@.degraded,
        final(call.on)@.degraded == old(call.on)@.degraded || (active && final(call.on)@.degraded
            == old(call.on)@.degraded + 1 && final(call.on)@.failures.current is Some
            && final(call.on)@.failures.current->0.site == site),
        final(call.on)@.observers == old(call.on)@.observers && final(call.on)@.queue == old(call.on)@.queue,
{
}

/// A poll takes the first waiting notification, and no other; where none waits it tells due values only.
#[verifier::rlimit(60)]
pub proof fn law_polls_take_one_notification<
    Q: Copy + FnOnce() -> Result<bool, SecureInputProbeError>,
    N: FnOnce() -> Instant,
    G: FnOnce(i32) -> ReadTarget,
    W: FnOnce(ElementId) -> ReadWindow,
    E: FnOnce(i32) -> ReadTarget,
    F: FnOnce(ElementId, bool) -> ValueFieldSnapshot,
    S: FnOnce(ElementId, bool) -> Result<Option<FocusedElementSnapshot>, NativeAxError>,
    V: FnOnce(ElementId, bool, bool) -> ValueSnapshot,
    C: FnOnce(ElementId, Option<NativeWindow>, bool, bool) -> CapturedValue,
    A: Fn(ElementId) -> Result<(), NativeAxError>,
    B: Fn(ElementId) -> Result<(), NativeAxError>,
    X: Fn(ElementId) -> Result<(), NativeAxError>,
    Y: Fn(ElementId) -> Result<(), NativeAxError>,
>(
    call: Subject<NativeAx>,
    probe: Option<Q>,
    policy: &CapturePolicy,
    reads: NotificationReads<G, W, E, F, S, V, C>,
    native: &NativeRegistrations<A, B, X, Y>,
    read_now: N,
    events: Vec<NativeAxEvent>,
)
    requires
        call.on.wf(),
        call_ensures(
            NativeAx::poll::<Q, N, G, W, E, F, S, V, C, A, B, X, Y>,
            (call.on, probe, policy, reads, native, read_now),
            events,
        ),
    ensures
        old(call.on)@.queue.items.len() > 0 ==> seq![old(call.on)@.queue.items[0]]
            + final(call.on)@.queue.items == old(call.on)@.queue.items,
        old(call.on)@.queue.items.len() == 0 ==> final(call.on)@.queue.items.len() == 0 && forall|i: int|
            0 <= i < events@.len() ==> (#[trigger] events@[i]) is UiValueChanged,
        final(call.on)@.dropped == old(call.on)@.dropped,
{
    let before = call.on@;
    let (taken, told, active, ready, now) = choose|
        taken: RuntimeModel,
        told: Seq<NativeAxEvent>,
        active: bool,
        ready: RuntimeModel,
        now: Instant,
    |
        {
            &&& #[trigger] turn_taken(before, probe, *policy, reads, *native, taken, told)
            &&& #[trigger] secure_asked(
                taken,
                probe,
                AxRecoverySite::SecureInputPoll,
                active,
                ready,
            )
            &&& #[trigger] call_ensures(read_now, (), now)
            &&& final(call.on)@ == ready.due(now, active).0
            &&& events@ == told + ready.due(now, active).1
        };
    lemma_turns_take_one(before, probe, *policy, reads, *native, taken, told);
    assert(ready.queue == taken.queue && ready.dropped == taken.dropped);
    runtime::lemma_due_values(ready, now, active);
    if before.queue.items.len() == 0 {
        assert(told.len() == 0);
        assert(told + ready.due(now, active).1 =~= ready.due(now, active).1);
    }
}

proof fn lemma_turns_take_one<
    Q: FnOnce() -> Result<bool, SecureInputProbeError>,
    G: FnOnce(i32) -> ReadTarget,
    W: FnOnce(ElementId) -> ReadWindow,
    E: FnOnce(i32) -> ReadTarget,
    F: FnOnce(ElementId, bool) -> ValueFieldSnapshot,
    S: FnOnce(ElementId, bool) -> Result<Option<FocusedElementSnapshot>, NativeAxError>,
    V: FnOnce(ElementId, bool, bool) -> ValueSnapshot,
    C: FnOnce(ElementId, Option<NativeWindow>, bool, bool) -> CapturedValue,
    A: Fn(ElementId) -> Result<(), NativeAxError>,
    B: Fn(ElementId) -> Result<(), NativeAxError>,
    X: Fn(ElementId) -> Result<(), NativeAxError>,
    Y: Fn(ElementId) -> Result<(), NativeAxError>,
>(
    before: RuntimeModel,
    probe: Option<Q>,
    policy: CapturePolicy,
    reads: NotificationReads<G, W, E, F, S, V, C>,
    native: NativeRegistrations<A, B, X, Y>,
    taken: RuntimeModel,
    told: Seq<NativeAxEvent>,
)
    requires
        turn_taken(before, probe, policy, reads, native, taken, told),
    ensures
        before.queue.items.len() > 0 ==> seq![before.queue.items[0]] + taken.queue.items
            == before.queue.items,
        before.queue.items.len() == 0 ==> taken.queue == before.queue && told.len() == 0,
        taken.dropped == before.dropped,
{
    if before.queue.items.len() > 0 {
        let queued = before.queue.items[0];
        let (active, asked, handled, events) = choose|
            active: bool,
            asked: RuntimeModel,
            handled: RuntimeModel,
            events: Result<Seq<NativeAxEvent>, NativeAxError>,
        |
            {
                &&& #[trigger] secure_for(
                    without_first(received(before)),
                    queued,
                    probe,
                    active,
                    asked,
                )
                &&& #[trigger] delivered(
                    asked,
                    queued,
                    active,
                    policy,
                    reads,
                    native,
                    handled,
                    events,
                )
                &&& (taken, told) == settled(handled, events)
            };
        law_notification_stays_in_its_application(
            asked,
            queued,
            active,
            policy,
            reads,
            native,
            handled,
            events,
        );
        assert(asked.queue == without_first(received(before)).queue);
        assert(asked.dropped == before.dropped);
        assert(handled.dropped == asked.dropped) by {
            if queued.notification is Some && asked.observes(queued.pid) {
                let i = choose|i: int|
                    0 <= i < asked.observers.len() && (#[trigger] asked.observers[i]).pid
                        == queued.pid;
                assert(asked.observers[i].pid == queued.pid);
            }
        }
        assert(seq![queued] + before.queue.items.drop_first() =~= before.queue.items);
    }
}

} // verus!
