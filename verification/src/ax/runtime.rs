//! All observed applications.

use time::OffsetDateTime;
use vstd::prelude::*;

use super::element::ReadWindow;
use super::health::{AxFailureState, AxRecoverySite};
use super::observer;
use super::observer::{AppObserver, ObserverModel, TargetKind};
use super::types::{
    native_error, ElementId, NativeAxError, NativeAxEvent, NativeElement, NativeHitTest,
};
use super::value_context;
use super::value_context::{ContextModel, DeferredResolution, DeferredValueContext};
use super::value_lifecycle;
use super::value_lifecycle::push_event;
use crate::channel;
use crate::channel::{count_up, join_counts, BoundedChannel, ChannelModel};
use crate::clock::Instant;
use crate::eventtap::output;
use crate::eventtap::output::{try_send_counted, EmitResult};
use crate::secure_input;
use crate::secure_input::SecureInputProbeError;
use crate::subject::Subject;
use crate::text;
use crate::text::is_text;
use crate::text_capture::authorization::{InputAuthorizations, LedgerModel};
use crate::window_list::NativeWindow;

verus! {

/// Notifications that wait to be handled.
pub const CALLBACK_QUEUE_CAPACITY: usize = 1_024;

/// A notification as it was delivered. Its name is missing when it could not be
/// read.
#[derive(Debug, PartialEq, Eq)]
pub struct QueuedNotification {
    pub pid: i32,
    pub element: ElementId,
    pub notification: Option<String>,
    pub notification_at: Instant,
    pub observed_at: OffsetDateTime,
}

/// What a notification asks for.
#[derive(Clone, Copy, Debug, PartialEq, Eq, Structural)]
pub enum DecodeStep {
    Nothing,
    FocusedWindow,
    RefreshWindow,
    TitleChanged,
    FocusedElement,
    ValueChanged,
}

/// Whether secure input has to be known before a notification is handled.
pub open spec fn asks_secure_input(name: Option<Seq<char>>) -> bool {
    name == Some("AXFocusedUIElementChanged"@) || name == Some("AXValueChanged"@)
}

/// Whether secure input has to be known before a notification is handled.
pub fn needs_secure_input(name: Option<&str>) -> (needed: bool)
    ensures
        needed == asks_secure_input(text::str_view(name)),
{
    is_text(name, "AXFocusedUIElementChanged") || is_text(name, "AXValueChanged")
}

/// What a notification of an observed application asks for. A title or a value
/// has to come from the current target.
pub open spec fn step_of(
    observer: ObserverModel,
    name: Seq<char>,
    element: ElementId,
) -> DecodeStep {
    if name == "AXFocusedWindowChanged"@ {
        DecodeStep::FocusedWindow
    } else if name == "AXWindowCreated"@ {
        DecodeStep::RefreshWindow
    } else if name == "AXTitleChanged"@ && observer.window_target == Some(element) {
        DecodeStep::TitleChanged
    } else if name == "AXFocusedUIElementChanged"@ {
        DecodeStep::FocusedElement
    } else if name == "AXValueChanged"@ && observer.delivering() && (observer.focused->0).element
        == element {
        DecodeStep::ValueChanged
    } else {
        DecodeStep::Nothing
    }
}

/// The observers of a list.
pub open spec fn observers_of(observers: Seq<AppObserver>) -> Seq<ObserverModel> {
    observers.map_values(|observer: AppObserver| observer@)
}

/// A value that was deferred when its application went away.
pub struct DetachedModel {
    pub pid: i32,
    pub context: ContextModel,
}

/// The deferred values of a list.
pub open spec fn detached_of(contexts: Seq<DeferredValueContext>) -> Seq<DetachedModel> {
    contexts.map_values(
        |context: DeferredValueContext|
            DetachedModel { pid: context.spec_pid(), context: context.spec_context()@ },
    )
}

/// What is known of all observed applications.
pub struct RuntimeModel {
    pub observers: Seq<ObserverModel>,
    pub detached: Seq<DetachedModel>,
    pub queue: ChannelModel<QueuedNotification>,
    pub dropped: u64,
    pub degraded: u64,
    pub failures: AxFailureState,
    pub enabled: bool,
    pub ledger: LedgerModel,
}

impl RuntimeModel {
    /// Every application is observed once, and every part is well-formed.
    pub open spec fn wf(self) -> bool {
        &&& forall|i: int| 0 <= i < self.observers.len() ==> (#[trigger] self.observers[i]).wf()
        &&& forall|i: int, j: int|
            #![trigger self.observers[i], self.observers[j]]
            0 <= i < j < self.observers.len() ==> self.observers[i].pid != self.observers[j].pid
        &&& forall|i: int|
            0 <= i < self.detached.len() ==> (#[trigger] self.detached[i]).context.capture.wf()
        &&& self.queue.wf()
        &&& self.ledger.wf()
    }

    /// Whether an application is observed.
    pub open spec fn observes(self, pid: i32) -> bool {
        exists|i: int| 0 <= i < self.observers.len() && (#[trigger] self.observers[i]).pid == pid
    }
}

/// The observers, the ledger and the events of a round.
pub struct RoundModel {
    pub observers: Seq<ObserverModel>,
    pub ledger: LedgerModel,
    pub events: Seq<NativeAxEvent>,
}

/// Looks for due values in the first `count` observers.
pub open spec fn observers_due(
    observers: Seq<ObserverModel>,
    count: nat,
    now: Instant,
    secure_input: bool,
    ledger: LedgerModel,
) -> RoundModel
    decreases count,
{
    if count == 0 {
        RoundModel { observers: Seq::empty(), ledger, events: Seq::empty() }
    } else {
        let before = observers_due(observers, (count - 1) as nat, now, secure_input, ledger);
        let (after, ledger_after, events) = observers[count - 1].due(
            now,
            secure_input,
            before.ledger,
        );
        RoundModel {
            observers: before.observers.push(after),
            ledger: ledger_after,
            events: before.events + events,
        }
    }
}

/// Flushes the first `count` observers.
pub open spec fn observers_flushed(
    observers: Seq<ObserverModel>,
    count: nat,
    secure_input: bool,
    ledger: LedgerModel,
) -> RoundModel
    decreases count,
{
    if count == 0 {
        RoundModel { observers: Seq::empty(), ledger, events: Seq::empty() }
    } else {
        let before = observers_flushed(observers, (count - 1) as nat, secure_input, ledger);
        let (after, ledger_after, events) = observers[count - 1].flushed(
            secure_input,
            before.ledger,
        );
        RoundModel {
            observers: before.observers.push(after),
            ledger: ledger_after,
            events: before.events + events,
        }
    }
}

/// The deferred values, the ledger and the events of a round.
pub struct DetachedRound {
    pub kept: Seq<DetachedModel>,
    pub ledger: LedgerModel,
    pub events: Seq<NativeAxEvent>,
}

/// Looks for due values in the first `count` deferred contexts.
pub open spec fn detached_due(
    contexts: Seq<DetachedModel>,
    count: nat,
    now: Instant,
    secure_input: bool,
    ledger: LedgerModel,
) -> DetachedRound
    decreases count,
{
    if count == 0 {
        DetachedRound { kept: Seq::empty(), ledger, events: Seq::empty() }
    } else {
        let before = detached_due(contexts, (count - 1) as nat, now, secure_input, ledger);
        let pid = contexts[count - 1].pid;
        let (context, ledger_after, event) = contexts[count - 1].context.due(
            pid,
            now,
            secure_input,
            before.ledger,
        );
        DetachedRound {
            kept: if value_context::waits(context, event, secure_input) {
                before.kept.push(DetachedModel { pid, context })
            } else {
                before.kept
            },
            ledger: ledger_after,
            events: match event {
                Some(event) => before.events.push(event),
                None => before.events,
            },
        }
    }
}

/// Flushes the first `count` deferred contexts.
pub open spec fn detached_flushed(
    contexts: Seq<DetachedModel>,
    count: nat,
    secure_input: bool,
    ledger: LedgerModel,
) -> DetachedRound
    decreases count,
{
    if count == 0 {
        DetachedRound { kept: Seq::empty(), ledger, events: Seq::empty() }
    } else {
        let before = detached_flushed(contexts, (count - 1) as nat, secure_input, ledger);
        let (_, ledger_after, event) = contexts[count - 1].context.emptied(
            contexts[count - 1].pid,
            secure_input,
            before.ledger,
        );
        DetachedRound {
            kept: Seq::empty(),
            ledger: ledger_after,
            events: match event {
                Some(event) => before.events.push(event),
                None => before.events,
            },
        }
    }
}

/// The failed operations that the first `count` observers counted.
pub open spec fn degraded_of(observers: Seq<ObserverModel>, count: nat, start: u64) -> u64
    decreases count,
{
    if count == 0 {
        start
    } else {
        channel::joined(
            degraded_of(observers, (count - 1) as nat, start),
            observers[count - 1].degraded,
        )
    }
}

impl RuntimeModel {
    /// The runtime and the events once due values were looked for: observed
    /// applications first, then deferred values.
    pub open spec fn due(self, now: Instant, secure_input: bool) -> (
        RuntimeModel,
        Seq<NativeAxEvent>,
    ) {
        let observed = observers_due(
            self.observers,
            self.observers.len(),
            now,
            secure_input,
            self.ledger,
        );
        let deferred = detached_due(
            self.detached,
            self.detached.len(),
            now,
            secure_input,
            observed.ledger,
        );
        (
            RuntimeModel {
                observers: observed.observers,
                detached: deferred.kept,
                ledger: deferred.ledger,
                ..self
            },
            observed.events + deferred.events,
        )
    }

    /// The runtime and the events once every held value was flushed.
    pub open spec fn flushed(self, secure_input: bool) -> (RuntimeModel, Seq<NativeAxEvent>) {
        let observed = observers_flushed(
            self.observers,
            self.observers.len(),
            secure_input,
            self.ledger,
        );
        let deferred = detached_flushed(
            self.detached,
            self.detached.len(),
            secure_input,
            observed.ledger,
        );
        (
            RuntimeModel {
                observers: observed.observers,
                detached: Seq::empty(),
                ledger: deferred.ledger,
                ..self
            },
            observed.events + deferred.events,
        )
    }
}

/// All observed applications, with the values that were deferred when one went
/// away.
#[derive(Debug)]
pub struct NativeAx {
    pub observers: Vec<AppObserver>,
    pub detached_contexts: Vec<DeferredValueContext>,
    pub queue: BoundedChannel<QueuedNotification>,
    pub dropped: u64,
    pub degraded: u64,
    pub failures: AxFailureState,
    pub capture_text_content: bool,
    pub authorizations: InputAuthorizations,
}

impl View for NativeAx {
    type V = RuntimeModel;

    open spec fn view(&self) -> RuntimeModel {
        RuntimeModel {
            observers: observers_of(self.observers@),
            detached: detached_of(self.detached_contexts@),
            queue: self.queue@,
            dropped: self.dropped,
            degraded: self.degraded,
            failures: self.failures,
            enabled: self.capture_text_content,
            ledger: self.authorizations@,
        }
    }
}

impl NativeAx {
    pub open spec fn wf(&self) -> bool {
        &&& self@.wf()
        &&& forall|i: int| 0 <= i < self.observers@.len() ==> (#[trigger] self.observers@[i]).wf()
    }

    /// A runtime that observes nothing.
    pub fn new(capture_text_content: bool, authorizations: InputAuthorizations) -> (runtime: Self)
        requires
            authorizations@.wf(),
        ensures
            runtime.wf(),
            runtime@ == (RuntimeModel {
                observers: Seq::empty(),
                detached: Seq::empty(),
                queue: ChannelModel {
                    capacity: CALLBACK_QUEUE_CAPACITY as nat,
                    items: Seq::empty(),
                    connected: true,
                },
                dropped: 0,
                degraded: 0,
                failures: AxFailureState { current: None },
                enabled: capture_text_content,
                ledger: authorizations@,
            }),
    {
        let runtime = NativeAx {
            observers: Vec::new(),
            detached_contexts: Vec::new(),
            queue: BoundedChannel::new(CALLBACK_QUEUE_CAPACITY),
            dropped: 0,
            degraded: 0,
            failures: AxFailureState::default(),
            capture_text_content,
            authorizations,
        };
        assert(runtime@.observers =~= Seq::empty());
        assert(runtime@.detached =~= Seq::empty());
        runtime
    }

    /// Where the observer of an application stands.
    pub fn position(&self, pid: i32) -> (position: Option<usize>)
        ensures
            match position {
                Some(index) => index < self.observers@.len() && self@.observers[index as int].pid
                    == pid,
                None => !self@.observes(pid),
            },
    {
        let mut index: usize = 0;
        while index < self.observers.len()
            invariant
                index <= self.observers@.len(),
                forall|i: int| 0 <= i < index ==> (#[trigger] self@.observers[i]).pid != pid,
            decreases self.observers@.len() - index,
        {
            assert(self@.observers[index as int] == self.observers@[index as int]@);
            if self.observers[index].pid == pid {
                return Some(index);
            }
            index = index + 1;
        }
        None
    }

    /// Takes in a freshly attached application.
    pub fn install(&mut self, observer: AppObserver)
        requires
            old(self).wf(),
            observer.wf(),
            !old(self)@.observes(observer@.pid),
        ensures
            final(self).wf(),
            final(self)@ == (RuntimeModel {
                observers: old(self)@.observers.push(observer@),
                ..old(self)@
            }),
    {
        let ghost before = self@;
        let ghost attached = observer@;
        self.observers.push(observer);
        assert(self@.observers =~= before.observers.push(attached));
    }

    /// Stops observing an application: its values are sent or deferred, and its
    /// keystrokes authorize nothing any more.
    pub fn detach<R: Fn(ElementId) -> Result<(), NativeAxError>>(
        &mut self,
        pid: i32,
        secure_input: bool,
        remove_native: &R,
    ) -> (events: Vec<NativeAxEvent>)
        requires
            old(self).wf(),
            forall|i: int|
                0 <= i < old(self)@.observers.len() && (#[trigger] old(self)@.observers[i]).pid
                    == pid ==> old(self)@.observers[i].release_ready(*remove_native),
        ensures
            final(self).wf(),
            !final(self)@.observes(pid),
            !old(self)@.observes(pid) ==> {
                &&& events@.len() == 0
                &&& final(self)@ == (RuntimeModel {
                    ledger: old(self)@.ledger.without_pid(pid),
                    ..old(self)@
                })
            },
            old(self)@.observes(pid) ==> exists|index: int, removed: Result<(), NativeAxError>|
                {
                    &&& 0 <= index < old(self)@.observers.len()
                    &&& old(self)@.observers[index].pid == pid
                    &&& old(self)@.observers[index].focused matches Some(previous) ==> (
                    old(self)@.observers[index].registry.contains_key(
                        observer::value_key(previous.element),
                    ) ==> call_ensures(*remove_native, (previous.element,), removed))
                    &&& ({
                        let detaching = #[trigger] old(self)@.observers[index].detaching(removed);
                        let detached = value_lifecycle::detached_of(
                            detaching.retired,
                            detaching.retired.len(),
                            pid,
                            secure_input,
                            old(self)@.ledger,
                        );
                        &&& events@ == detached.events
                        &&& final(self)@ == (RuntimeModel {
                            observers: old(self)@.observers.remove(index),
                            detached: old(self)@.detached + detached.deferred.map_values(
                                |context: ContextModel| DetachedModel { pid, context },
                            ),
                            degraded: channel::joined(old(self)@.degraded, detaching.degraded),
                            ledger: detached.ledger.without_pid(pid),
                            ..old(self)@
                        })
                    })
                },
    {
        let ghost before = self@;
        let index = match self.position(pid) {
            None => {
                self.authorizations.remove_pid(pid);
                return Vec::new();
            },
            Some(index) => index,
        };
        let ghost kept = self.observers@;
        assert(before.observers[index as int] == kept[index as int]@);
        let mut observer = self.observers.remove(index);
        let ghost leaving = observer@;
        let (events, mut deferred) = observer.detach_values(
            secure_input,
            &mut self.authorizations,
            remove_native,
        );
        self.degraded = join_counts(self.degraded, observer.degraded);
        let ghost removed = choose|removed: Result<(), NativeAxError>|
            {
                let detaching = #[trigger] leaving.detaching(removed);
                let detached = value_lifecycle::detached_of(
                    detaching.retired,
                    detaching.retired.len(),
                    detaching.pid,
                    secure_input,
                    before.ledger,
                );
                &&& observer@ == (ObserverModel { retired: Seq::empty(), ..detaching })
                &&& self.authorizations@ == detached.ledger
                &&& events@ == detached.events
                &&& value_lifecycle::deferred_contexts(deferred@) == detached.deferred
            };
        let ghost arrivals = deferred@;
        let ghost waiting = self.detached_contexts@;
        self.detached_contexts.append(&mut deferred);
        self.authorizations.remove_pid(pid);
        proof {
            let detaching = before.observers[index as int].detaching(removed);
            let detached = value_lifecycle::detached_of(
                detaching.retired,
                detaching.retired.len(),
                pid,
                secure_input,
                before.ledger,
            );
            let added = detached.deferred.map_values(
                |context: ContextModel| DetachedModel { pid, context },
            );
            assert(self@.observers =~= before.observers.remove(index as int));
            assert(detached_of(arrivals) =~= added) by {
                assert(arrivals.len() == detached.deferred.len());
                assert forall|i: int| 0 <= i < arrivals.len() implies detached_of(
                    arrivals,
                )[i] == added[i] by {
                    assert(value_lifecycle::deferred_contexts(arrivals)[i]
                        == arrivals[i].spec_context()@);
                }
            }
            assert(self@.detached =~= before.detached + added);
            assert forall|i: int, j: int|
                #![trigger self@.observers[i], self@.observers[j]]
                0 <= i < j < self@.observers.len() implies self@.observers[i].pid
                != self@.observers[j].pid by {
                let a = if i < index {
                    i
                } else {
                    i + 1
                };
                let b = if j < index {
                    j
                } else {
                    j + 1
                };
                assert(before.observers[a].pid != before.observers[b].pid);
            }
            assert forall|i: int| 0 <= i < self@.observers.len() implies (
            #[trigger] self@.observers[i]).pid != pid && self@.observers[i].wf() by {
                let a = if i < index {
                    i
                } else {
                    i + 1
                };
                assert(self@.observers[i] == before.observers[a]);
                if a < index {
                    assert(before.observers[a].pid != before.observers[index as int].pid);
                } else {
                    assert(before.observers[index as int].pid != before.observers[a].pid);
                }
            }
            assert forall|i: int| 0 <= i < self@.detached.len() implies (
            #[trigger] self@.detached[i]).context.capture.wf() by {
                if i < waiting.len() {
                    assert(self@.detached[i] == before.detached[i]);
                } else {
                    assert(self@.detached[i].context == arrivals[i
                        - waiting.len()].spec_context()@);
                }
            }
            assert forall|i: int| 0 <= i < self.observers@.len() implies (
            #[trigger] self.observers@[i]).wf() by {
                let a = if i < index {
                    i
                } else {
                    i + 1
                };
                assert(self.observers@[i] == kept[a]);
            }
        }
        events
    }

    /// Queues a notification; one that finds no room is counted.
    pub fn enqueue(&mut self, notification: QueuedNotification) -> (result: EmitResult)
        requires
            old(self).wf(),
        ensures
            final(self).wf(),
            result == output::offer_result(old(self)@.queue),
            final(self)@ == (RuntimeModel {
                queue: old(self)@.queue.offered(notification),
                dropped: output::offer_count(old(self)@.queue, old(self)@.dropped),
                ..old(self)@
            }),
    {
        try_send_counted(&mut self.queue, notification, &mut self.dropped)
    }

    /// Starts a poll: takes in what the event tap published, and the next
    /// notification.
    pub fn next_notification(&mut self) -> (notification: Option<QueuedNotification>)
        requires
            old(self).wf(),
        ensures
            final(self).wf(),
            match notification {
                Some(taken) => old(self)@.queue.items.len() > 0 && taken
                    == old(self)@.queue.items[0] && final(self)@ == (RuntimeModel {
                    ledger: old(self)@.ledger.delivered(),
                    queue: ChannelModel {
                        items: old(self)@.queue.items.drop_first(),
                        ..old(self)@.queue
                    },
                    ..old(self)@
                }),
                None => old(self)@.queue.items.len() == 0 && final(self)@ == (RuntimeModel {
                    ledger: old(self)@.ledger.delivered(),
                    ..old(self)@
                }),
            },
    {
        self.authorizations.receive_pending();
        self.queue.try_recv()
    }

    /// What a notification asks for. One without a name is an error; one of an
    /// application that is not observed any more asks for nothing.
    pub fn decode(&self, queued: &QueuedNotification) -> (step: Result<DecodeStep, NativeAxError>)
        requires
            self.wf(),
        ensures
            queued.notification is None <==> step is Err,
            step matches Err(error) ==> error.code == -1 && error.operation@
                == "AX notification decoding"@,
            step matches Ok(step) ==> {
                &&& !self@.observes(queued.pid) ==> step is Nothing
                &&& forall|i: int|
                    0 <= i < self@.observers.len() && (#[trigger] self@.observers[i]).pid
                        == queued.pid ==> step == step_of(
                        self@.observers[i],
                        (queued.notification->0)@,
                        queued.element,
                    )
            },
    {
        let name = match &queued.notification {
            None => {
                return Err(native_error("AX notification decoding", -1));
            },
            Some(name) => name,
        };
        let index = match self.position(queued.pid) {
            None => {
                return Ok(DecodeStep::Nothing);
            },
            Some(index) => index,
        };
        proof {
            assert forall|i: int| 0 <= i < self@.observers.len() && (
            #[trigger] self@.observers[i]).pid == queued.pid implies i == index by {
                if i < index {
                    assert(self@.observers[i].pid != self@.observers[index as int].pid);
                } else if i > index {
                    assert(self@.observers[index as int].pid != self@.observers[i].pid);
                }
            }
            assert(self@.observers[index as int] == self.observers@[index as int]@);
        }
        let name = Some(name.as_str());
        if is_text(name, "AXFocusedWindowChanged") {
            Ok(DecodeStep::FocusedWindow)
        } else if is_text(name, "AXWindowCreated") {
            Ok(DecodeStep::RefreshWindow)
        } else if is_text(name, "AXTitleChanged") && self.observers[index].is_current_target(
            TargetKind::Window,
            queued.element,
        ) {
            Ok(DecodeStep::TitleChanged)
        } else if is_text(name, "AXFocusedUIElementChanged") {
            Ok(DecodeStep::FocusedElement)
        } else if is_text(name, "AXValueChanged") && self.observers[index].is_current_target(
            TargetKind::Value,
            queued.element,
        ) {
            Ok(DecodeStep::ValueChanged)
        } else {
            Ok(DecodeStep::Nothing)
        }
    }

    /// Counts an operation that failed.
    pub fn record_degraded(&mut self)
        requires
            old(self).wf(),
        ensures
            final(self).wf(),
            final(self)@ == (RuntimeModel {
                degraded: channel::next_count(old(self)@.degraded),
                ..old(self)@
            }),
    {
        self.degraded = count_up(self.degraded);
    }

    /// Emits the values that are due.
    pub fn take_due(&mut self, now: Instant, secure_input: bool) -> (events: Vec<NativeAxEvent>)
        requires
            old(self).wf(),
        ensures
            final(self).wf(),
            (final(self)@, events@) == old(self)@.due(now, secure_input),
    {
        let ghost before = self@;
        let mut events: Vec<NativeAxEvent> = Vec::new();
        let mut index: usize = 0;
        proof {
            assert(self@.observers =~= Seq::empty() + before.observers.skip(0));
        }
        while index < self.observers.len()
            invariant
                index <= self.observers@.len(),
                self.observers@.len() == before.observers.len(),
                before.wf(),
                self.authorizations@.wf(),
                self.detached_contexts@ == old(self).detached_contexts@,
                self.queue@ == before.queue,
                self.dropped == before.dropped,
                self.degraded == before.degraded,
                self.failures == before.failures,
                self.capture_text_content == before.enabled,
                before == old(self)@,
                forall|i: int|
                    0 <= i < self.observers@.len() ==> (#[trigger] self.observers@[i]).wf(),
                ({
                    let round = observers_due(
                        before.observers,
                        index as nat,
                        now,
                        secure_input,
                        before.ledger,
                    );
                    &&& round.observers.len() == index
                    &&& observers_of(self.observers@) == round.observers
                        + before.observers.skip(index as int)
                    &&& self.authorizations@ == round.ledger
                    &&& events@ == round.events
                }),
            decreases self.observers@.len() - index,
        {
            let ghost held = self.observers@;
            let ghost round = observers_due(
                before.observers,
                index as nat,
                now,
                secure_input,
                before.ledger,
            );
            proof {
                assert(observers_of(held)[index as int] == held[index as int]@);
                assert((round.observers + before.observers.skip(index as int))[index as int]
                    == before.observers[index as int]);
            }
            let mut found = self.observers[index].take_due_value_events(
                now,
                secure_input,
                &mut self.authorizations,
            );
            let ghost sent = found@;
            events.append(&mut found);
            proof {
                let next = observers_due(
                    before.observers,
                    (index + 1) as nat,
                    now,
                    secure_input,
                    before.ledger,
                );
                assert(events@ =~= round.events + sent);
                assert(observers_of(self.observers@) =~= next.observers + before.observers.skip(
                    index + 1,
                )) by {
                    assert forall|i: int| 0 <= i < held.len() implies observers_of(
                        self.observers@,
                    )[i] == (next.observers + before.observers.skip(index + 1))[i] by {
                        if i != index {
                            assert(observers_of(held)[i] == held[i]@);
                            assert(self.observers@[i] == held[i]);
                        }
                    }
                }
            }
            index = index + 1;
        }
        let ghost observed = observers_due(
            before.observers,
            before.observers.len(),
            now,
            secure_input,
            before.ledger,
        );
        proof {
            assert(before.observers.skip(index as int) =~= Seq::empty());
            assert(self@.observers =~= observed.observers);
        }
        let ghost start = self.authorizations@;
        let ghost first = events@;
        let ghost contexts = before.detached;
        let mut waiting: Vec<DeferredValueContext> = Vec::new();
        waiting.append(&mut self.detached_contexts);
        let mut kept: Vec<DeferredValueContext> = Vec::new();
        let ghost mut taken: nat = 0;
        proof {
            assert(detached_of(waiting@) =~= contexts.skip(0));
            assert(detached_of(kept@) =~= Seq::empty());
            assert(first + Seq::<NativeAxEvent>::empty() =~= first);
        }
        while waiting.len() > 0
            invariant
                taken <= contexts.len(),
                contexts == before.detached,
                before.wf(),
                detached_of(waiting@) == contexts.skip(taken as int),
                self.authorizations@.wf(),
                forall|i: int|
                    0 <= i < kept@.len() ==> (
                    #[trigger] kept@[i]).spec_context()@.capture.wf(),
                ({
                    let round = detached_due(contexts, taken, now, secure_input, start);
                    &&& detached_of(kept@) == round.kept
                    &&& self.authorizations@ == round.ledger
                    &&& events@ == first + round.events
                }),
                self.observers@.len() == before.observers.len(),
                self@.observers == observed.observers,
                self.queue@ == before.queue,
                self.dropped == before.dropped,
                self.degraded == before.degraded,
                self.failures == before.failures,
                self.capture_text_content == before.enabled,
                forall|i: int|
                    0 <= i < self.observers@.len() ==> (#[trigger] self.observers@[i]).wf(),
            decreases waiting.len(),
        {
            let ghost held = waiting@;
            let ghost round = detached_due(contexts, taken, now, secure_input, start);
            let ghost kept_before = kept@;
            let mut context = waiting.remove(0);
            proof {
                assert(contexts.skip(taken as int).len() == held.len());
                assert(contexts.skip(taken as int)[0] == contexts[taken as int]);
                assert(detached_of(held)[0] == DetachedModel {
                    pid: held[0].spec_pid(),
                    context: held[0].spec_context()@,
                });
                assert(contexts[taken as int].context.capture.wf());
                assert(detached_of(waiting@) =~= detached_of(held).skip(1));
                assert(contexts.skip(taken as int).skip(1) =~= contexts.skip((taken + 1) as int));
            }
            match context.take_due(now, secure_input, &mut self.authorizations) {
                DeferredResolution::Pending => {
                    let ghost after = DetachedModel {
                        pid: context.spec_pid(),
                        context: context.spec_context()@,
                    };
                    kept.push(context);
                    assert(detached_of(kept@) =~= detached_of(kept_before).push(after));
                },
                DeferredResolution::Complete(event) => {
                    let ghost sent = event;
                    push_event(&mut events, event);
                    proof {
                        if sent is Some {
                            assert((first + round.events).push(sent->0) =~= first
                                + round.events.push(sent->0));
                        }
                    }
                },
            }
            proof {
                taken = taken + 1;
            }
        }
        assert(taken == contexts.len()) by {
            assert(contexts.skip(taken as int).len() == 0);
        }
        self.detached_contexts = kept;
        proof {
            assert(self@ == before.due(now, secure_input).0);
            lemma_due_keeps_pids(
                before.observers,
                before.observers.len(),
                now,
                secure_input,
                before.ledger,
            );
            assert forall|i: int| 0 <= i < self@.observers.len() implies (
            #[trigger] self@.observers[i]).wf() by {
                assert(self@.observers[i] == self.observers@[i]@);
            }
            assert forall|i: int| 0 <= i < self@.detached.len() implies (
            #[trigger] self@.detached[i]).context.capture.wf() by {
                assert(self@.detached[i].context == self.detached_contexts@[i].spec_context()@);
            }
        }
        events
    }
}

proof fn lemma_due_keeps_pids(
    observers: Seq<ObserverModel>,
    count: nat,
    now: Instant,
    secure_input: bool,
    ledger: LedgerModel,
)
    requires
        count <= observers.len(),
    ensures
        observers_due(observers, count, now, secure_input, ledger).observers.len() == count,
        forall|i: int|
            0 <= i < count ==> (#[trigger] observers_due(
                observers,
                count,
                now,
                secure_input,
                ledger,
            ).observers[i]).pid == observers[i].pid,
    decreases count,
{
    if count > 0 {
        lemma_due_keeps_pids(observers, (count - 1) as nat, now, secure_input, ledger);
    }
}

proof fn lemma_flush_keeps_pids(
    observers: Seq<ObserverModel>,
    count: nat,
    secure_input: bool,
    ledger: LedgerModel,
)
    requires
        count <= observers.len(),
    ensures
        observers_flushed(observers, count, secure_input, ledger).observers.len() == count,
        forall|i: int|
            0 <= i < count ==> (#[trigger] observers_flushed(
                observers,
                count,
                secure_input,
                ledger,
            ).observers[i]).pid == observers[i].pid,
    decreases count,
{
    if count > 0 {
        lemma_flush_keeps_pids(observers, (count - 1) as nat, secure_input, ledger);
    }
}

impl NativeAx {
    /// Emits every held value, due or not.
    pub fn flush_pending(&mut self, secure_input: bool) -> (events: Vec<NativeAxEvent>)
        requires
            old(self).wf(),
        ensures
            final(self).wf(),
            (final(self)@, events@) == old(self)@.flushed(secure_input),
    {
        let ghost before = self@;
        let mut events: Vec<NativeAxEvent> = Vec::new();
        let mut index: usize = 0;
        proof {
            assert(self@.observers =~= Seq::empty() + before.observers.skip(0));
        }
        while index < self.observers.len()
            invariant
                index <= self.observers@.len(),
                self.observers@.len() == before.observers.len(),
                before.wf(),
                self.authorizations@.wf(),
                self.detached_contexts@ == old(self).detached_contexts@,
                self.queue@ == before.queue,
                self.dropped == before.dropped,
                self.degraded == before.degraded,
                self.failures == before.failures,
                self.capture_text_content == before.enabled,
                before == old(self)@,
                forall|i: int|
                    0 <= i < self.observers@.len() ==> (#[trigger] self.observers@[i]).wf(),
                ({
                    let round = observers_flushed(
                        before.observers,
                        index as nat,
                        secure_input,
                        before.ledger,
                    );
                    &&& round.observers.len() == index
                    &&& observers_of(self.observers@) == round.observers
                        + before.observers.skip(index as int)
                    &&& self.authorizations@ == round.ledger
                    &&& events@ == round.events
                }),
            decreases self.observers@.len() - index,
        {
            let ghost held = self.observers@;
            let ghost round = observers_flushed(
                before.observers,
                index as nat,
                secure_input,
                before.ledger,
            );
            proof {
                assert(observers_of(held)[index as int] == held[index as int]@);
                assert((round.observers + before.observers.skip(index as int))[index as int]
                    == before.observers[index as int]);
            }
            let mut found = self.observers[index].flush_pending(
                secure_input,
                &mut self.authorizations,
            );
            let ghost sent = found@;
            events.append(&mut found);
            proof {
                let next = observers_flushed(
                    before.observers,
                    (index + 1) as nat,
                    secure_input,
                    before.ledger,
                );
                assert(events@ =~= round.events + sent);
                assert(observers_of(self.observers@) =~= next.observers + before.observers.skip(
                    index + 1,
                )) by {
                    assert forall|i: int| 0 <= i < held.len() implies observers_of(
                        self.observers@,
                    )[i] == (next.observers + before.observers.skip(index + 1))[i] by {
                        if i != index {
                            assert(observers_of(held)[i] == held[i]@);
                            assert(self.observers@[i] == held[i]);
                        }
                    }
                }
            }
            index = index + 1;
        }
        let ghost observed = observers_flushed(
            before.observers,
            before.observers.len(),
            secure_input,
            before.ledger,
        );
        proof {
            assert(before.observers.skip(index as int) =~= Seq::empty());
            assert(self@.observers =~= observed.observers);
        }
        let ghost start = self.authorizations@;
        let ghost first = events@;
        let ghost contexts = before.detached;
        let mut waiting: Vec<DeferredValueContext> = Vec::new();
        waiting.append(&mut self.detached_contexts);
        let ghost mut taken: nat = 0;
        proof {
            assert(detached_of(waiting@) =~= contexts.skip(0));
            assert(first + Seq::<NativeAxEvent>::empty() =~= first);
        }
        while waiting.len() > 0
            invariant
                taken <= contexts.len(),
                contexts == before.detached,
                before.wf(),
                detached_of(waiting@) == contexts.skip(taken as int),
                self.authorizations@.wf(),
                ({
                    let round = detached_flushed(contexts, taken, secure_input, start);
                    &&& self.authorizations@ == round.ledger
                    &&& events@ == first + round.events
                }),
                self.detached_contexts@.len() == 0,
                self.observers@.len() == before.observers.len(),
                self@.observers == observed.observers,
                self.queue@ == before.queue,
                self.dropped == before.dropped,
                self.degraded == before.degraded,
                self.failures == before.failures,
                self.capture_text_content == before.enabled,
                forall|i: int|
                    0 <= i < self.observers@.len() ==> (#[trigger] self.observers@[i]).wf(),
            decreases waiting.len(),
        {
            let ghost held = waiting@;
            let ghost round = detached_flushed(contexts, taken, secure_input, start);
            let mut context = waiting.remove(0);
            proof {
                assert(contexts.skip(taken as int).len() == held.len());
                assert(contexts.skip(taken as int)[0] == contexts[taken as int]);
                assert(detached_of(held)[0] == DetachedModel {
                    pid: held[0].spec_pid(),
                    context: held[0].spec_context()@,
                });
                assert(contexts[taken as int].context.capture.wf());
                assert(detached_of(waiting@) =~= detached_of(held).skip(1));
                assert(contexts.skip(taken as int).skip(1) =~= contexts.skip((taken + 1) as int));
            }
            let event = context.flush(secure_input, &mut self.authorizations);
            let ghost sent = event;
            push_event(&mut events, event);
            proof {
                if sent is Some {
                    assert((first + round.events).push(sent->0) =~= first + round.events.push(
                        sent->0,
                    ));
                }
                taken = taken + 1;
            }
        }
        assert(taken == contexts.len()) by {
            assert(contexts.skip(taken as int).len() == 0);
        }
        proof {
            assert(self@.detached =~= Seq::empty());
            assert(self@ == before.flushed(secure_input).0);
            lemma_flush_keeps_pids(
                before.observers,
                before.observers.len(),
                secure_input,
                before.ledger,
            );
            assert forall|i: int| 0 <= i < self@.observers.len() implies (
            #[trigger] self@.observers[i]).wf() by {
                assert(self@.observers[i] == self.observers@[i]@);
            }
        }
        events
    }

    /// Ends the runtime; the ledger goes back to its owner.
    pub fn into_authorizations(self) -> (authorizations: InputAuthorizations)
        ensures
            authorizations@ == self@.ledger,
    {
        self.authorizations
    }

    /// The notifications lost since the last look.
    pub fn take_dropped_events(&mut self) -> (dropped: u64)
        requires
            old(self).wf(),
        ensures
            final(self).wf(),
            dropped == old(self)@.dropped,
            final(self)@ == (RuntimeModel { dropped: 0, ..old(self)@ }),
    {
        let dropped: u64 = self.dropped;
        self.dropped = 0;
        dropped
    }

    /// The operations that failed since the last look, of the runtime and of
    /// every observer.
    pub fn take_degraded_operations(&mut self) -> (degraded: u64)
        requires
            old(self).wf(),
        ensures
            final(self).wf(),
            degraded == degraded_of(
                old(self)@.observers,
                old(self)@.observers.len(),
                old(self)@.degraded,
            ),
            final(self)@ == (RuntimeModel {
                degraded: 0,
                observers: old(self)@.observers.map_values(
                    |observer: ObserverModel| ObserverModel { degraded: 0, ..observer },
                ),
                ..old(self)@
            }),
    {
        let ghost before = self@;
        let ghost cleared = |observer: ObserverModel| ObserverModel { degraded: 0, ..observer };
        let mut total: u64 = self.degraded;
        self.degraded = 0;
        let mut index: usize = 0;
        while index < self.observers.len()
            invariant
                index <= self.observers@.len(),
                self.observers@.len() == before.observers.len(),
                total == degraded_of(before.observers, index as nat, before.degraded),
                cleared == (|observer: ObserverModel| ObserverModel { degraded: 0, ..observer }),
                forall|i: int|
                    0 <= i < self.observers@.len() ==> (#[trigger] self.observers@[i]).wf(),
                forall|i: int|
                    0 <= i < index ==> (#[trigger] self.observers@[i])@ == cleared(
                        before.observers[i],
                    ),
                forall|i: int|
                    index <= i < self.observers@.len() ==> (#[trigger] self.observers@[i])@
                        == before.observers[i],
                self.detached_contexts@ == old(self).detached_contexts@,
                self.queue@ == before.queue,
                self.dropped == before.dropped,
                self.degraded == 0,
                self.failures == before.failures,
                self.capture_text_content == before.enabled,
                self.authorizations@ == before.ledger,
            decreases self.observers@.len() - index,
        {
            total = join_counts(total, self.observers[index].degraded);
            self.observers[index].degraded = 0;
            index = index + 1;
        }
        proof {
            assert(self@.observers =~= before.observers.map_values(cleared));
            assert forall|i: int, j: int|
                #![trigger self@.observers[i], self@.observers[j]]
                0 <= i < j < self@.observers.len() implies self@.observers[i].pid
                != self@.observers[j].pid by {
                assert(before.observers[i].pid != before.observers[j].pid);
            }
            assert forall|i: int| 0 <= i < self@.observers.len() implies (
            #[trigger] self@.observers[i]).wf() by {
                assert(before.observers[i].wf());
            }
        }
        total
    }

    /// What is found at a position of an observed application. A failed read is
    /// counted.
    pub fn hit_test<
        E: FnOnce() -> Result<Option<ElementId>, NativeAxError>,
        S: FnOnce(ElementId) -> Result<
            Option<(Option<NativeWindow>, NativeElement)>,
            NativeAxError,
        >,
    >(&mut self, pid: i32, element_at: E, read_element: S) -> (found: Option<NativeHitTest>)
        requires
            old(self).wf(),
            old(self)@.observes(pid) ==> call_requires(element_at, ()),
            old(self)@.observes(pid) ==> forall|found: Result<Option<ElementId>, NativeAxError>|
                #[trigger]
                call_ensures(element_at, (), found) ==> (found matches Ok(Some(element))
                    ==> call_requires(read_element, (element,))),
        ensures
            final(self).wf(),
            !old(self)@.observes(pid) ==> found is None && final(self)@ == old(self)@,
            old(self)@.observes(pid) ==> exists|
                element: Result<Option<ElementId>, NativeAxError>,
                read: Result<Option<(Option<NativeWindow>, NativeElement)>, NativeAxError>,
            |
                {
                    &&& call_ensures(element_at, (), element)
                    &&& element matches Ok(Some(id)) ==> call_ensures(read_element, (id,), read)
                    &&& found == #[trigger] hit_of(pid, element, read)
                    &&& final(self)@ == if element is Err || (element matches Ok(Some(_))
                        && read is Err) {
                        RuntimeModel {
                            degraded: channel::next_count(old(self)@.degraded),
                            ..old(self)@
                        }
                    } else {
                        old(self)@
                    }
                },
    {
        if self.position(pid).is_none() {
            return None;
        }
        let ghost unread: Result<Option<(Option<NativeWindow>, NativeElement)>, NativeAxError> = Ok(
            None,
        );
        let element = element_at();
        let ghost at = element;
        match element {
            Err(_) => {
                assert(None::<NativeHitTest> == hit_of(pid, at, unread));
                self.record_degraded();
                None
            },
            Ok(None) => {
                assert(None::<NativeHitTest> == hit_of(pid, at, unread));
                None
            },
            Ok(Some(element)) => {
                let reading = read_element(element);
                let ghost read = reading;
                match reading {
                    Err(_) => {
                        assert(None::<NativeHitTest> == hit_of(pid, at, read));
                        self.record_degraded();
                        None
                    },
                    Ok(None) => {
                        assert(None::<NativeHitTest> == hit_of(pid, at, read));
                        None
                    },
                    Ok(Some((window, element))) => {
                        let found = Some(NativeHitTest { pid, window, element });
                        assert(found == hit_of(pid, at, read));
                        found
                    },
                }
            },
        }
    }
}

/// What the reads at a position come to.
pub open spec fn hit_of(
    pid: i32,
    element: Result<Option<ElementId>, NativeAxError>,
    read: Result<Option<(Option<NativeWindow>, NativeElement)>, NativeAxError>,
) -> Option<NativeHitTest> {
    match (element, read) {
        (Ok(Some(_)), Ok(Some((window, element)))) => Some(NativeHitTest { pid, window, element }),
        _ => None,
    }
}

/// The event of a changed title, if the window could be read.
pub fn title_event(queued: &QueuedNotification, window: ReadWindow) -> (event: Result<
    Option<NativeAxEvent>,
    NativeAxError,
>)
    ensures
        event == match window {
            Err(error) => Err::<Option<NativeAxEvent>, NativeAxError>(error),
            Ok(None) => Ok(None),
            Ok(Some(window)) => Ok(
                Some(
                    NativeAxEvent::WindowTitleChanged {
                        pid: queued.pid,
                        window,
                        observed_at: queued.observed_at,
                    },
                ),
            ),
        },
{
    match window {
        Err(error) => Err(error),
        Ok(None) => Ok(None),
        Ok(Some(window)) => Ok(
            Some(
                NativeAxEvent::WindowTitleChanged {
                    pid: queued.pid,
                    window,
                    observed_at: queued.observed_at,
                },
            ),
        ),
    }
}

/// The window of a focused-window event.
pub fn focused_window(event: Option<NativeAxEvent>) -> (window: Option<NativeWindow>)
    requires
        event matches Some(event) ==> event is WindowFocused,
    ensures
        window == match event {
            Some(NativeAxEvent::WindowFocused { window, .. }) => Some(window),
            _ => None,
        },
{
    match event {
        Some(NativeAxEvent::WindowFocused { pid: _, window, observed_at: _ }) => Some(window),
        _ => None,
    }
}

/// Registers the notifications of an application. The focus has to be observed;
/// new windows are observed where that works, which the result tells.
pub fn register_application<A: Fn(&'static str) -> Result<(), NativeAxError>>(
    add_native: &A,
) -> (registered: Result<bool, NativeAxError>)
    requires
        call_requires(*add_native, ("AXFocusedWindowChanged",)),
        forall|window: Result<(), NativeAxError>| #[trigger]
            call_ensures(*add_native, ("AXFocusedWindowChanged",), window) && window is Ok
                ==> call_requires(*add_native, ("AXFocusedUIElementChanged",)),
        forall|window: Result<(), NativeAxError>, element: Result<(), NativeAxError>| #[trigger]
            call_ensures(*add_native, ("AXFocusedWindowChanged",), window) && window is Ok
                && #[trigger] call_ensures(*add_native, ("AXFocusedUIElementChanged",), element)
                && element is Ok ==> call_requires(*add_native, ("AXWindowCreated",)),
    ensures
        exists|
            window: Result<(), NativeAxError>,
            element: Result<(), NativeAxError>,
            created: Result<(), NativeAxError>,
        |
            {
                &&& #[trigger] application_registered(*add_native, window, element, created)
                &&& registered == if window is Err {
                    Err::<bool, NativeAxError>(window->Err_0)
                } else if element is Err {
                    Err(element->Err_0)
                } else {
                    Ok(created is Ok)
                }
            },
{
    let ghost unasked: Result<(), NativeAxError> = Ok(());
    let window = add_native("AXFocusedWindowChanged");
    if let Err(error) = window {
        assert(application_registered(*add_native, window, unasked, unasked));
        return Err(error);
    }
    let element = add_native("AXFocusedUIElementChanged");
    if let Err(error) = element {
        assert(application_registered(*add_native, window, element, unasked));
        return Err(error);
    }
    let created = add_native("AXWindowCreated");
    assert(application_registered(*add_native, window, element, created));
    Ok(created.is_ok())
}

/// Whether these are the answers to the registrations of an application.
pub open spec fn application_registered<A: Fn(&'static str) -> Result<(), NativeAxError>>(
    add_native: A,
    window: Result<(), NativeAxError>,
    element: Result<(), NativeAxError>,
    created: Result<(), NativeAxError>,
) -> bool {
    &&& call_ensures(add_native, ("AXFocusedWindowChanged",), window)
    &&& window is Ok ==> call_ensures(add_native, ("AXFocusedUIElementChanged",), element)
    &&& window is Ok && element is Ok ==> call_ensures(add_native, ("AXWindowCreated",), created)
}

/// Whether secure input counts as on while text is captured. A failed probe is
/// counted, reported and counts as on; its next answer ends the report. A missing
/// probe counts as on.
pub fn secure_input_active<P: FnOnce() -> Result<bool, SecureInputProbeError>>(
    capture_text_content: bool,
    probe: Option<P>,
    degraded: &mut u64,
    failures: &mut AxFailureState,
    site: AxRecoverySite,
) -> (active: bool)
    requires
        capture_text_content ==> (probe matches Some(ask) ==> call_requires(ask, ())),
    ensures
        !capture_text_content ==> !active && *final(degraded) == *old(degraded) && *final(failures)
            == *old(failures),
        capture_text_content && probe is None ==> active && *final(degraded) == *old(degraded)
            && *final(failures) == *old(failures),
        capture_text_content && probe is Some ==> exists|
            answer: Result<bool, SecureInputProbeError>,
        |
            {
                &&& #[trigger] call_ensures(probe->0, (), answer)
                &&& active == secure_input::counts_as_secure(Some(answer))
                &&& *final(degraded) == if answer is Err {
                    channel::next_count(*old(degraded))
                } else {
                    *old(degraded)
                }
                &&& *final(failures) == if answer is Err {
                    AxFailureState::failed(site)
                } else {
                    old(failures).recovered(site)
                }
            },
{
    if !capture_text_content {
        return false;
    }
    match probe {
        None => true,
        Some(ask) => match ask() {
            Ok(enabled) => {
                failures.recover(site);
                enabled
            },
            Err(_) => {
                *degraded = count_up(*degraded);
                failures.record(site);
                true
            },
        },
    }
}

/// A value or a title of an element that is not the current target asks for
/// nothing.
pub proof fn law_foreign_elements_are_ignored(
    observer: ObserverModel,
    name: Seq<char>,
    element: ElementId,
)
    ensures
        name == "AXValueChanged"@ && (!observer.delivering() || (observer.focused->0).element
            != element) ==> step_of(observer, name, element) is Nothing,
        name == "AXTitleChanged"@ && observer.window_target != Some(element) ==> step_of(
            observer,
            name,
            element,
        ) is Nothing,
{
    reveal_strlit("AXFocusedWindowChanged");
    reveal_strlit("AXWindowCreated");
    reveal_strlit("AXTitleChanged");
    reveal_strlit("AXFocusedUIElementChanged");
    reveal_strlit("AXValueChanged");
    assert("AXTitleChanged"@.len() == 14);
    assert("AXValueChanged"@.len() == 14);
    assert("AXWindowCreated"@.len() == 15);
    assert("AXTitleChanged"@[2] == 'T');
    assert("AXValueChanged"@[2] == 'V');
}

/// Secure input is asked for before a focus or a value is handled, and before nothing else.
pub proof fn law_content_notifications_ask_secure_input(name: Option<&str>, needed: bool)
    requires
        call_ensures(needs_secure_input, (name,), needed),
    ensures
        needed <==> name is Some && (name->0@ == "AXFocusedUIElementChanged"@ || name->0@
            == "AXValueChanged"@),
{
}

/// A notification of an observed application is told apart by its name. A title counts for the window target
/// only, a value for the focused element only and while its notification delivers; one without a name is an
/// error, and one of another application asks for nothing.
pub proof fn law_notifications_are_told_apart_by_name(
    runtime: NativeAx,
    queued: QueuedNotification,
    step: Result<DecodeStep, NativeAxError>,
    index: int,
)
    requires
        runtime.wf(),
        call_ensures(NativeAx::decode, (&runtime, &queued), step),
        0 <= index < runtime@.observers.len(),
    ensures
        step is Err <==> queued.notification is None,
        step is Ok && runtime@.observers[index].pid == queued.pid ==> {
            let observer = runtime@.observers[index];
            let name = queued.notification->0@;
            &&& step->Ok_0 is FocusedWindow <==> name == "AXFocusedWindowChanged"@
            &&& step->Ok_0 is RefreshWindow <==> name == "AXWindowCreated"@
            &&& step->Ok_0 is FocusedElement <==> name == "AXFocusedUIElementChanged"@
            &&& step->Ok_0 is TitleChanged <==> name == "AXTitleChanged"@ && observer.window_target
                == Some(queued.element)
            &&& step->Ok_0 is ValueChanged <==> name == "AXValueChanged"@ && observer.focused is Some
                && observer.focused->0.element == queued.element && observer.registry.contains_key(
                (queued.element, "AXValueChanged"@),
            ) && observer.registry[(queued.element, "AXValueChanged"@)] is Active
        },
        step is Ok && (forall|i: int|
            0 <= i < runtime@.observers.len() ==> (#[trigger] runtime@.observers[i]).pid != queued.pid)
            ==> step->Ok_0 is Nothing,
{
    reveal_strlit("AXFocusedWindowChanged");
    reveal_strlit("AXWindowCreated");
    reveal_strlit("AXTitleChanged");
    reveal_strlit("AXFocusedUIElementChanged");
    reveal_strlit("AXValueChanged");
    assert("AXFocusedWindowChanged"@.len() == 22);
    assert("AXFocusedUIElementChanged"@.len() == 25);
    assert("AXTitleChanged"@.len() == 14);
    assert("AXValueChanged"@.len() == 14);
    assert("AXWindowCreated"@.len() == 15);
    assert("AXTitleChanged"@[2] == 'T');
    assert("AXValueChanged"@[2] == 'V');
}

/// Notifications wait in their order, up to 1024 of them; one beyond them is refused and counted. The first
/// that came is the first that is taken.
pub proof fn law_notifications_wait_in_order(
    offered: Subject<NativeAx>,
    notification: QueuedNotification,
    result: EmitResult,
    taken: Subject<NativeAx>,
    next: Option<QueuedNotification>,
)
    requires
        offered.on.wf() && taken.on.wf(),
        call_ensures(NativeAx::enqueue, (offered.on, notification), result),
        call_ensures(NativeAx::next_notification, (taken.on,), next),
        offered.on@.dropped < u64::MAX,
        offered.on@.queue.connected && offered.on@.queue.capacity == 1_024,
    ensures
        old(offered.on)@.queue.items.len() < 1_024 ==> final(offered.on)@.queue.items
            == old(offered.on)@.queue.items.push(notification) && final(offered.on)@.dropped
            == old(offered.on)@.dropped && result is Sent,
        old(offered.on)@.queue.items.len() >= 1_024 ==> final(offered.on)@.queue.items
            == old(offered.on)@.queue.items && final(offered.on)@.dropped == old(offered.on)@.dropped + 1
            && result is Dropped,
        next is Some <==> old(taken.on)@.queue.items.len() > 0,
        next matches Some(first) ==> seq![first] + final(taken.on)@.queue.items == old(taken.on)@.queue.items,
        next is None ==> final(taken.on)@.queue == old(taken.on)@.queue,
        final(taken.on)@.observers == old(taken.on)@.observers && final(taken.on)@.dropped
            == old(taken.on)@.dropped,
{
}

/// A runtime starts with nothing observed, queued or counted. An installed observer is the last of those
/// observed; counts are handed out once.
pub proof fn law_runtimes_start_empty(
    capture_text_content: bool,
    authorizations: InputAuthorizations,
    runtime: NativeAx,
    installed: Subject<NativeAx>,
    observer: AppObserver,
    counted: Subject<NativeAx>,
    dropped: u64,
)
    requires
        authorizations@.wf() && installed.on.wf() && observer.wf() && counted.on.wf(),
        call_ensures(NativeAx::new, (capture_text_content, authorizations), runtime),
        !installed.on@.observes(observer@.pid),
        call_ensures(NativeAx::install, (installed.on, observer), ()),
        call_ensures(NativeAx::take_dropped_events, (counted.on,), dropped),
    ensures
        runtime@.observers.len() == 0 && runtime@.detached.len() == 0,
        runtime@.queue.items.len() == 0 && runtime@.queue.capacity == 1_024 && runtime@.queue.connected,
        runtime@.dropped == 0 && runtime@.degraded == 0 && runtime@.enabled == capture_text_content,
        runtime@.ledger == authorizations@,
        final(installed.on)@.observers == old(installed.on)@.observers.push(observer@),
        final(installed.on)@.detached == old(installed.on)@.detached && final(installed.on)@.queue
            == old(installed.on)@.queue,
        dropped == old(counted.on)@.dropped && final(counted.on)@.dropped == 0,
        final(counted.on)@.queue == old(counted.on)@.queue && final(counted.on)@.observers
            == old(counted.on)@.observers,
{
}

/// A detached application is not observed any more, and every other is as before. Its values are told of its
/// own process or wait detached, and under secure input they do neither.
pub proof fn law_detached_applications_are_gone<R: Fn(ElementId) -> Result<(), NativeAxError>>(
    call: Subject<NativeAx>,
    pid: i32,
    secure_input: bool,
    remove_native: &R,
    events: Vec<NativeAxEvent>,
)
    requires
        call.on.wf(),
        call_ensures(NativeAx::detach::<R>, (call.on, pid, secure_input, remove_native), events),
    ensures
        forall|i: int|
            0 <= i < final(call.on)@.observers.len() ==> (#[trigger] final(call.on)@.observers[i]).pid
                != pid && old(call.on)@.observers.contains(final(call.on)@.observers[i]),
        forall|i: int|
            0 <= i < old(call.on)@.observers.len() && (#[trigger] old(call.on)@.observers[i]).pid != pid
                ==> final(call.on)@.observers.contains(old(call.on)@.observers[i]),
        forall|i: int|
            0 <= i < events@.len() ==> (#[trigger] events@[i]) is UiValueChanged
                && events@[i]->UiValueChanged_0.pid == pid,
        secure_input ==> events@.len() == 0 && final(call.on)@.detached == old(call.on)@.detached,
        final(call.on)@.detached.len() >= old(call.on)@.detached.len(),
        forall|i: int|
            0 <= i < old(call.on)@.detached.len() ==> (#[trigger] final(call.on)@.detached[i])
                == old(call.on)@.detached[i],
        forall|i: int|
            old(call.on)@.detached.len() <= i < final(call.on)@.detached.len() ==> (
            #[trigger] final(call.on)@.detached[i]).pid == pid
                && final(call.on)@.detached[i].context.capture.pending is Some,
        !old(call.on)@.observes(pid) ==> events@.len() == 0 && final(call.on)@.observers
            == old(call.on)@.observers,
        final(call.on)@.queue == old(call.on)@.queue,
{
    let before = call.on@;
    let after = final(call.on)@;
    assert forall|i: int| 0 <= i < after.observers.len() implies (
    #[trigger] after.observers[i]).pid != pid by {
        if after.observers[i].pid == pid {
            assert(after.observes(pid));
        }
    }
    if before.observes(pid) {
        let (index, removed) = choose|index: int, removed: Result<(), NativeAxError>|
            {
                &&& 0 <= index < before.observers.len()
                &&& before.observers[index].pid == pid
                &&& before.observers[index].focused matches Some(previous) ==> (
                before.observers[index].registry.contains_key(
                    observer::value_key(previous.element),
                ) ==> call_ensures(*remove_native, (previous.element,), removed))
                &&& ({
                    let detaching = #[trigger] before.observers[index].detaching(removed);
                    let detached = value_lifecycle::detached_of(
                        detaching.retired,
                        detaching.retired.len(),
                        pid,
                        secure_input,
                        before.ledger,
                    );
                    &&& events@ == detached.events
                    &&& after == (RuntimeModel {
                        observers: before.observers.remove(index),
                        detached: before.detached + detached.deferred.map_values(
                            |context: ContextModel| DetachedModel { pid, context },
                        ),
                        degraded: channel::joined(before.degraded, detaching.degraded),
                        ledger: detached.ledger.without_pid(pid),
                        ..before
                    })
                })
            };
        let detaching = before.observers[index].detaching(removed);
        value_lifecycle::lemma_detached(
            detaching.retired,
            detaching.retired.len(),
            pid,
            secure_input,
            before.ledger,
        );
        if secure_input {
            assert(after.detached =~= before.detached);
        }
        assert forall|i: int| 0 <= i < after.observers.len() implies before.observers.contains(
            #[trigger] after.observers[i],
        ) by {
            let place = if i < index {
                i
            } else {
                i + 1
            };
            assert(after.observers[i] == before.observers[place]);
        }
        assert forall|i: int|
            0 <= i < before.observers.len() && (#[trigger] before.observers[i]).pid
                != pid implies after.observers.contains(before.observers[i]) by {
            let place = if i < index {
                i
            } else {
                i - 1
            };
            assert(after.observers[place] == before.observers[i]);
        }
    } else {
        assert forall|i: int| 0 <= i < before.observers.len() implies before.observers.contains(
            #[trigger] before.observers[i],
        ) by {}
    }
}

proof fn lemma_observers_due(
    observers: Seq<ObserverModel>,
    count: nat,
    now: Instant,
    secure_input: bool,
    ledger: LedgerModel,
)
    requires
        count <= observers.len(),
    ensures
        ({
            let round = observers_due(observers, count, now, secure_input, ledger);
            &&& round.observers.len() == count
            &&& secure_input ==> round.events.len() == 0
            &&& forall|i: int|
                0 <= i < count ==> (#[trigger] round.observers[i]).pid == observers[i].pid
                    && round.observers[i].registry == observers[i].registry
            &&& forall|i: int|
                0 <= i < round.events.len() ==> (#[trigger] round.events[i]) is UiValueChanged
        }),
    decreases count,
{
    if count > 0 {
        lemma_observers_due(observers, (count - 1) as nat, now, secure_input, ledger);
        let before = observers_due(observers, (count - 1) as nat, now, secure_input, ledger);
        let observer = observers[count - 1];
        let start = observer.focused_due(now, secure_input, before.ledger).1;
        value_lifecycle::lemma_due_events(
            observer.retired,
            observer.retired.len(),
            observer.pid,
            now,
            secure_input,
            start,
        );
    }
}

proof fn lemma_detached_due(
    contexts: Seq<DetachedModel>,
    count: nat,
    now: Instant,
    secure_input: bool,
    ledger: LedgerModel,
)
    requires
        count <= contexts.len(),
    ensures
        ({
            let round = detached_due(contexts, count, now, secure_input, ledger);
            &&& secure_input ==> round.events.len() == 0 && round.kept.len() == 0
            &&& round.events.len() + round.kept.len() <= count
            &&& forall|i: int|
                0 <= i < round.events.len() ==> (#[trigger] round.events[i]) is UiValueChanged
            &&& forall|i: int|
                0 <= i < round.kept.len() ==> contexts.contains(#[trigger] round.kept[i])
        }),
    decreases count,
{
    if count > 0 {
        lemma_detached_due(contexts, (count - 1) as nat, now, secure_input, ledger);
        assert(contexts.contains(contexts[count - 1]));
    }
}

/// Looking for due values tells values only and keeps every observed application. Detached values that are
/// not due stay detached; under secure input nothing is told and none stays.
pub proof fn law_due_values_of_all_applications(
    call: Subject<NativeAx>,
    now: Instant,
    secure_input: bool,
    events: Vec<NativeAxEvent>,
)
    requires
        call.on.wf(),
        call_ensures(NativeAx::take_due, (call.on, now, secure_input), events),
    ensures
        final(call.on)@.observers.len() == old(call.on)@.observers.len(),
        forall|i: int|
            0 <= i < old(call.on)@.observers.len() ==> (#[trigger] final(call.on)@.observers[i]).pid
                == old(call.on)@.observers[i].pid,
        forall|i: int| 0 <= i < events@.len() ==> (#[trigger] events@[i]) is UiValueChanged,
        forall|i: int|
            0 <= i < final(call.on)@.detached.len() ==> old(call.on)@.detached.contains(
                #[trigger] final(call.on)@.detached[i],
            ),
        secure_input ==> events@.len() == 0 && final(call.on)@.detached.len() == 0,
        final(call.on)@.queue == old(call.on)@.queue && final(call.on)@.dropped == old(call.on)@.dropped,
{
    lemma_due_values(call.on@, now, secure_input);
}

pub(crate) proof fn lemma_due_values(before: RuntimeModel, now: Instant, secure_input: bool)
    ensures
        ({
            let (after, events) = before.due(now, secure_input);
            &&& after.observers.len() == before.observers.len()
            &&& forall|i: int|
                0 <= i < before.observers.len() ==> (#[trigger] after.observers[i]).pid
                    == before.observers[i].pid
            &&& forall|i: int| 0 <= i < events.len() ==> (#[trigger] events[i]) is UiValueChanged
            &&& forall|i: int|
                0 <= i < after.detached.len() ==> before.detached.contains(#[trigger] after.detached[i])
            &&& secure_input ==> events.len() == 0 && after.detached.len() == 0
            &&& after.queue == before.queue && after.dropped == before.dropped
        }),
{
    lemma_observers_due(before.observers, before.observers.len(), now, secure_input, before.ledger);
    let observed = observers_due(
        before.observers,
        before.observers.len(),
        now,
        secure_input,
        before.ledger,
    );
    lemma_detached_due(before.detached, before.detached.len(), now, secure_input, observed.ledger);
}

proof fn lemma_observers_flushed(
    observers: Seq<ObserverModel>,
    count: nat,
    secure_input: bool,
    ledger: LedgerModel,
)
    requires
        count <= observers.len(),
    ensures
        ({
            let round = observers_flushed(observers, count, secure_input, ledger);
            &&& round.observers.len() == count
            &&& secure_input ==> round.events.len() == 0
            &&& forall|i: int|
                0 <= i < count ==> (#[trigger] round.observers[i]).pid == observers[i].pid
                    && round.observers[i].retired.len() == 0 && (round.observers[i].focused is Some
                    ==> round.observers[i].focused->0.context.capture.pending is None)
            &&& forall|i: int|
                0 <= i < round.events.len() ==> (#[trigger] round.events[i]) is UiValueChanged
        }),
    decreases count,
{
    if count > 0 {
        lemma_observers_flushed(observers, (count - 1) as nat, secure_input, ledger);
        let before = observers_flushed(observers, (count - 1) as nat, secure_input, ledger);
        let observer = observers[count - 1];
        let start = observer.focused_flush(secure_input, before.ledger).1;
        value_lifecycle::lemma_flushed_events(
            observer.retired,
            observer.retired.len(),
            observer.pid,
            secure_input,
            start,
        );
    }
}

proof fn lemma_detached_flushed(
    contexts: Seq<DetachedModel>,
    count: nat,
    secure_input: bool,
    ledger: LedgerModel,
)
    requires
        count <= contexts.len(),
    ensures
        ({
            let round = detached_flushed(contexts, count, secure_input, ledger);
            &&& secure_input ==> round.events.len() == 0
            &&& !secure_input && (forall|i: int|
                0 <= i < count ==> (#[trigger] contexts[i]).context.capture.pending is Some)
                ==> round.events.len() == count
            &&& forall|i: int|
                0 <= i < round.events.len() ==> (#[trigger] round.events[i]) is UiValueChanged
        }),
    decreases count,
{
    if count > 0 {
        lemma_detached_flushed(contexts, (count - 1) as nat, secure_input, ledger);
    }
}

/// A flush tells every held value of every application, detached ones too, and leaves none held; under secure
/// input it tells none.
pub proof fn law_flushes_leave_nothing_held(
    call: Subject<NativeAx>,
    secure_input: bool,
    events: Vec<NativeAxEvent>,
)
    requires
        call.on.wf(),
        call_ensures(NativeAx::flush_pending, (call.on, secure_input), events),
    ensures
        final(call.on)@.detached.len() == 0,
        final(call.on)@.observers.len() == old(call.on)@.observers.len(),
        forall|i: int|
            0 <= i < old(call.on)@.observers.len() ==> (#[trigger] final(call.on)@.observers[i]).pid
                == old(call.on)@.observers[i].pid && final(call.on)@.observers[i].retired.len() == 0 && (
            final(call.on)@.observers[i].focused is Some
                ==> final(call.on)@.observers[i].focused->0.context.capture.pending is None),
        forall|i: int| 0 <= i < events@.len() ==> (#[trigger] events@[i]) is UiValueChanged,
        secure_input ==> events@.len() == 0,
        !secure_input && (forall|i: int|
            0 <= i < old(call.on)@.detached.len() ==> (
            #[trigger] old(call.on)@.detached[i]).context.capture.pending is Some) ==> events@.len()
            >= old(call.on)@.detached.len(),
        final(call.on)@.queue == old(call.on)@.queue,
{
    let before = call.on@;
    lemma_observers_flushed(before.observers, before.observers.len(), secure_input, before.ledger);
    let observed = observers_flushed(
        before.observers,
        before.observers.len(),
        secure_input,
        before.ledger,
    );
    lemma_detached_flushed(before.detached, before.detached.len(), secure_input, observed.ledger);
}

proof fn lemma_degraded(observers: Seq<ObserverModel>, count: nat, start: u64)
    requires
        count <= observers.len(),
        forall|i: int| 0 <= i < count ==> (#[trigger] observers[i]).degraded == 0,
    ensures
        degraded_of(observers, count, start) == start,
    decreases count,
{
    if count > 0 {
        lemma_degraded(observers, (count - 1) as nat, start);
    }
}

/// Failures are counted over the runtime and its observers and handed out once: a second look finds none.
pub proof fn law_failures_are_handed_out_once(
    call: Subject<NativeAx>,
    degraded: u64,
    again: Subject<NativeAx>,
    none: u64,
)
    requires
        call.on.wf() && again.on.wf(),
        call_ensures(NativeAx::take_degraded_operations, (call.on,), degraded),
        again.on@ == final(call.on)@,
        call_ensures(NativeAx::take_degraded_operations, (again.on,), none),
    ensures
        none == 0,
        final(call.on)@.degraded == 0,
        forall|i: int|
            0 <= i < old(call.on)@.observers.len() ==> (#[trigger] final(call.on)@.observers[i]).degraded == 0
                && final(call.on)@.observers[i].focused == old(call.on)@.observers[i].focused,
        old(call.on)@.observers.len() == 0 ==> degraded == old(call.on)@.degraded,
        old(call.on)@.observers.len() == 1 && old(call.on)@.degraded + old(call.on)@.observers[0].degraded <= u64::MAX
            ==> degraded == old(call.on)@.degraded + old(call.on)@.observers[0].degraded,
{
    reveal_with_fuel(degraded_of, 2);
    lemma_degraded(again.on@.observers, again.on@.observers.len(), again.on@.degraded);
}

/// What is found at a position is the element that was read there, of an observed application; where none is
/// observed nothing is read.
pub proof fn law_hits_are_read_of_observed_applications<
    E: FnOnce() -> Result<Option<ElementId>, NativeAxError>,
    S: FnOnce(ElementId) -> Result<Option<(Option<NativeWindow>, NativeElement)>, NativeAxError>,
>(
    call: Subject<NativeAx>,
    pid: i32,
    element_at: E,
    read_element: S,
    found: Option<NativeHitTest>,
)
    requires
        call.on.wf(),
        call_ensures(NativeAx::hit_test::<E, S>, (call.on, pid, element_at, read_element), found),
    ensures
        found matches Some(hit) ==> old(call.on)@.observes(pid) && hit.pid == pid && exists|
            element: ElementId,
        | #[trigger]
            call_ensures(
                read_element,
                (element,),
                Ok::<Option<(Option<NativeWindow>, NativeElement)>, NativeAxError>(
                    Some((hit.window, hit.element)),
                ),
            ) && call_ensures(element_at, (), Ok::<Option<ElementId>, NativeAxError>(Some(element))),
        found is Some ==> final(call.on)@ == old(call.on)@,
        !old(call.on)@.observes(pid) ==> found is None && final(call.on)@ == old(call.on)@,
        final(call.on)@.observers == old(call.on)@.observers,
{
    if let Some(hit) = found {
        let (element, read) = choose|
            element: Result<Option<ElementId>, NativeAxError>,
            read: Result<Option<(Option<NativeWindow>, NativeElement)>, NativeAxError>,
        |
            {
                &&& call_ensures(element_at, (), element)
                &&& element matches Ok(Some(id)) ==> call_ensures(read_element, (id,), read)
                &&& found == #[trigger] hit_of(pid, element, read)
            };
        let id = element->Ok_0->0;
        assert(element == Ok::<Option<ElementId>, NativeAxError>(Some(id)));
        assert(read == Ok::<Option<(Option<NativeWindow>, NativeElement)>, NativeAxError>(
            Some((hit.window, hit.element)),
        ));
        assert(call_ensures(
            read_element,
            (id,),
            Ok::<Option<(Option<NativeWindow>, NativeElement)>, NativeAxError>(
                Some((hit.window, hit.element)),
            ),
        ));
    }
}

/// A changed title is told with the process and moment of its notification and the window as read; an
/// unreadable window is an error, and none is told as nothing.
pub proof fn law_titles_are_told_as_read(
    queued: QueuedNotification,
    window: ReadWindow,
    event: Result<Option<NativeAxEvent>, NativeAxError>,
    focused: Option<NativeAxEvent>,
    shown: Option<NativeWindow>,
)
    requires
        call_ensures(title_event, (&queued, window), event),
        focused matches Some(told) ==> told is WindowFocused,
        call_ensures(focused_window, (focused,), shown),
    ensures
        event is Err <==> window is Err,
        event matches Err(error) ==> window == Err::<Option<NativeWindow>, NativeAxError>(error),
        event is Ok ==> (event->Ok_0 is Some <==> window->Ok_0 is Some),
        event is Ok && event->Ok_0 is Some ==> (event->Ok_0->0
            matches NativeAxEvent::WindowTitleChanged { pid, window: told, observed_at } && pid
            == queued.pid && observed_at == queued.observed_at && window->Ok_0 == Some(told)),
        shown is Some <==> focused is Some,
        shown matches Some(of_event) ==> (focused->0 matches NativeAxEvent::WindowFocused {
            window: told,
            ..
        } && told == of_event),
{
}

/// An application is registered where both its focus notifications are; whether its new windows are told does
/// not decide, and comes out.
pub proof fn law_applications_need_their_focus<A: Fn(&'static str) -> Result<(), NativeAxError>>(
    add_native: &A,
    registered: Result<bool, NativeAxError>,
)
    requires
        call_ensures(register_application::<A>, (add_native,), registered),
    ensures
        registered is Ok ==> call_ensures(
            *add_native,
            ("AXFocusedWindowChanged",),
            Ok::<(), NativeAxError>(()),
        ) && call_ensures(
            *add_native,
            ("AXFocusedUIElementChanged",),
            Ok::<(), NativeAxError>(()),
        ) && exists|created: Result<(), NativeAxError>| #[trigger]
            call_ensures(*add_native, ("AXWindowCreated",), created) && (created is Ok
                <==> registered->Ok_0),
        registered matches Err(error) ==> call_ensures(
            *add_native,
            ("AXFocusedWindowChanged",),
            Err::<(), NativeAxError>(error),
        ) || call_ensures(
            *add_native,
            ("AXFocusedUIElementChanged",),
            Err::<(), NativeAxError>(error),
        ),
{
    let (window, element, created) = choose|
        window: Result<(), NativeAxError>,
        element: Result<(), NativeAxError>,
        created: Result<(), NativeAxError>,
    |
        {
            &&& #[trigger] application_registered(*add_native, window, element, created)
            &&& registered == if window is Err {
                Err::<bool, NativeAxError>(window->Err_0)
            } else if element is Err {
                Err(element->Err_0)
            } else {
                Ok(created is Ok)
            }
        };
    if registered is Ok {
        assert(window->Ok_0 == ());
        assert(element->Ok_0 == ());
        assert(window == Ok::<(), NativeAxError>(()));
        assert(element == Ok::<(), NativeAxError>(()));
    }
}

/// Secure input counts as on where it is, where it cannot be told and where nothing tells it, and never while
/// no text is captured; only a failed question is counted.
pub proof fn law_untold_secure_input_counts_as_on<P: FnOnce() -> Result<bool, SecureInputProbeError>>(
    capture_text_content: bool,
    probe: Option<P>,
    degraded: Subject<u64>,
    failures: Subject<AxFailureState>,
    site: AxRecoverySite,
    active: bool,
)
    requires
        call_ensures(
            secure_input_active::<P>,
            (capture_text_content, probe, degraded.on, failures.on, site),
            active,
        ),
        *degraded.on < u64::MAX,
    ensures
        !capture_text_content ==> !active,
        capture_text_content && probe is None ==> active,
        capture_text_content && probe is Some && !active ==> call_ensures(
            probe->0,
            (),
            Ok::<bool, SecureInputProbeError>(false),
        ),
        capture_text_content && probe is Some && active ==> exists|
            answer: Result<bool, SecureInputProbeError>,
        | #[trigger]
            call_ensures(probe->0, (), answer) && (answer matches Ok(on) ==> on) && (answer is Err
                <==> *final(degraded.on) == *old(degraded.on) + 1) && (answer is Err
                ==> final(failures.on).current is Some && final(failures.on).current->0.site == site),
        *final(degraded.on) == *old(degraded.on) || *final(degraded.on) == *old(degraded.on) + 1,
        *final(degraded.on) != *old(degraded.on) ==> active,
{
}

} // verus!
