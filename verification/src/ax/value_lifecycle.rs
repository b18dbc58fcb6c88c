//! Changed, due and deferred values of an observed application.

use vstd::prelude::*;

use super::element::CapturedValue;
use super::focus_lifecycle;
use super::focus_lifecycle::call_element_step;
use super::observer;
use super::observer::{AppObserver, FocusMoment, ObserverModel, VALUE_CHANGED};
use super::registration;
use super::registration::{RegistrationError, RegistrationStep};
use super::types::{ElementId, NativeAxError, NativeAxEvent};
use super::value_context;
use super::value_context::{
    ContextModel, DeferredResolution, DeferredValueContext, FocusedValueContext,
};
use crate::clock::Instant;
use crate::focused_field::FieldClass;
use crate::subject::Subject;
use crate::text_capture::authorization::{InputAuthorizations, LedgerModel};
use crate::window_list::{copy_window, NativeWindow};

verus! {

impl ObserverModel {
    /// The observer once the registration of its focused element was fitted to a
    /// class and a failure counted.
    pub open spec fn reconciled(
        self,
        field_class: FieldClass,
        outcome: Result<(), NativeAxError>,
    ) -> ObserverModel {
        let step = self.step(Some(field_class));
        let after = self.stepped(step, outcome);
        if registration::step_result(step, outcome) is Err {
            after.degraded_once()
        } else {
            after
        }
    }

    /// The focused context once a captured value was taken in, before it is
    /// staged. A changed surface ends what was held of the previous one.
    pub open spec fn captured_context(self, captured: CapturedValue) -> ContextModel {
        let context = (self.focused->0).context;
        ContextModel {
            window: captured.window,
            capture: if captured.surface_changed {
                context.capture.bounded()
            } else {
                context.capture
            },
            ..context
        }
    }

    /// The ledger once a captured value was taken in, before it is staged.
    pub open spec fn captured_ledger(
        self,
        captured: CapturedValue,
        ledger: LedgerModel,
    ) -> LedgerModel {
        if captured.surface_changed {
            ledger.without_target(self.pid, (self.focused->0).context.generation)
        } else {
            ledger
        }
    }

    /// The class that the registration is fitted to: none under secure input, a
    /// failed read or a changed surface.
    pub open spec fn value_registration_class(
        captured: CapturedValue,
        secure_input: bool,
    ) -> Option<FieldClass> {
        if !secure_input && captured.snapshot.failure is None && !captured.surface_changed {
            Some(captured.snapshot.field_class)
        } else {
            None
        }
    }

    /// The observer with the value staged.
    pub open spec fn value_staged(
        self,
        captured: CapturedValue,
        moment: FocusMoment,
        ledger: LedgerModel,
    ) -> (ObserverModel, LedgerModel, Option<NativeAxEvent>) {
        let context = self.captured_context(captured);
        let shown = context.shown(captured.snapshot, captured.decision, moment.observed_at);
        let (capture, ledger_after, emission) = context.capture.observed(
            context.observed(
                self.pid,
                moment.notification_at,
                captured.snapshot,
                captured.decision,
            ),
            self.captured_ledger(captured, ledger),
        );
        let start = if captured.snapshot.failure is Some {
            self.degraded_once()
        } else {
            self
        };
        (
            start.with_context(ContextModel { capture, ..shown }),
            ledger_after,
            shown.event_for(self.pid, emission),
        )
    }

    /// The observer, the ledger and the events of a changed value.
    pub open spec fn value_changed(
        self,
        captured: CapturedValue,
        outcome: Result<(), NativeAxError>,
        moment: FocusMoment,
        ledger: LedgerModel,
    ) -> (ObserverModel, LedgerModel, Seq<NativeAxEvent>) {
        if !self.delivering() {
            (self, ledger, Seq::empty())
        } else {
            let (staged, ledger_after, event) = self.value_staged(captured, moment, ledger);
            let after = match ObserverModel::value_registration_class(
                captured,
                moment.secure_input,
            ) {
                Some(class) => staged.reconciled(class, outcome),
                None => staged,
            };
            let focus = if (self.focused->0).context.field_class
                != captured.snapshot.field_class {
                seq![after.focus_event(moment.observed_at)]
            } else {
                Seq::empty()
            };
            (
                after,
                ledger_after,
                match event {
                    Some(event) => focus.push(event),
                    None => focus,
                },
            )
        }
    }

    /// Whether the calls that a changed value makes can be made, whatever its
    /// capture gives.
    pub open spec fn value_ready<
        C: FnOnce(ElementId, Option<NativeWindow>, bool, bool) -> CapturedValue,
        A: Fn(ElementId) -> Result<(), NativeAxError>,
        R: Fn(ElementId) -> Result<(), NativeAxError>,
    >(self, secure_input: bool, capture: C, add_native: A, remove_native: R) -> bool {
        self.delivering() ==> {
            let asked = (
                (self.focused->0).element,
                (self.focused->0).context.window,
                self.enabled,
                secure_input,
            );
            &&& call_requires(capture, asked)
            &&& forall|captured: CapturedValue| #[trigger]
                call_ensures(capture, asked, captured) ==> focus_lifecycle::element_step_ready(
                    self.value_step(captured, secure_input),
                    (self.focused->0).element,
                    add_native,
                    remove_native,
                )
        }
    }

    /// The step that the registration needs after a value was captured.
    pub open spec fn value_step(
        self,
        captured: CapturedValue,
        secure_input: bool,
    ) -> RegistrationStep {
        self.step(ObserverModel::value_registration_class(captured, secure_input))
    }
}

/// What became of the first `count` contexts when due values were looked for.
pub struct DueModel {
    pub kept: Seq<ContextModel>,
    pub ledger: LedgerModel,
    pub events: Seq<NativeAxEvent>,
}

/// Looks for due values in the first `count` contexts: the ones that still wait
/// are kept, the events come in order.
pub open spec fn due_of(
    contexts: Seq<ContextModel>,
    count: nat,
    pid: i32,
    now: Instant,
    secure_input: bool,
    ledger: LedgerModel,
) -> DueModel
    decreases count,
{
    if count == 0 {
        DueModel { kept: Seq::empty(), ledger, events: Seq::empty() }
    } else {
        let before = due_of(contexts, (count - 1) as nat, pid, now, secure_input, ledger);
        let (context, ledger_after, event) = contexts[count - 1].due(
            pid,
            now,
            secure_input,
            before.ledger,
        );
        DueModel {
            kept: if value_context::waits(context, event, secure_input) {
                before.kept.push(context)
            } else {
                before.kept
            },
            ledger: ledger_after,
            events: match event {
                Some(event) => before.events.push(event),
                None => before.events,
            },
        }
    }
}

/// Flushes the first `count` contexts: the ledger and the events in order.
pub open spec fn flushed_of(
    contexts: Seq<ContextModel>,
    count: nat,
    pid: i32,
    secure_input: bool,
    ledger: LedgerModel,
) -> (LedgerModel, Seq<NativeAxEvent>)
    decreases count,
{
    if count == 0 {
        (ledger, Seq::empty())
    } else {
        let (before, events) = flushed_of(contexts, (count - 1) as nat, pid, secure_input, ledger);
        let (_, ledger_after, event) = contexts[count - 1].emptied(pid, secure_input, before);
        (
            ledger_after,
            match event {
                Some(event) => events.push(event),
                None => events,
            },
        )
    }
}

/// What became of the first `count` contexts when their application went away.
pub struct DetachModel {
    pub deferred: Seq<ContextModel>,
    pub ledger: LedgerModel,
    pub events: Seq<NativeAxEvent>,
}

/// Detaches the first `count` contexts: a value that the worker may still
/// confirm is deferred, any other is flushed.
pub open spec fn detached_of(
    contexts: Seq<ContextModel>,
    count: nat,
    pid: i32,
    secure_input: bool,
    ledger: LedgerModel,
) -> DetachModel
    decreases count,
{
    if count == 0 {
        DetachModel { deferred: Seq::empty(), ledger, events: Seq::empty() }
    } else {
        let before = detached_of(contexts, (count - 1) as nat, pid, secure_input, ledger);
        let context = contexts[count - 1];
        if !secure_input && context.capture.awaits_worker(before.ledger) {
            DetachModel { deferred: before.deferred.push(context), ..before }
        } else {
            let (_, ledger_after, event) = context.emptied(pid, secure_input, before.ledger);
            DetachModel {
                ledger: ledger_after,
                events: match event {
                    Some(event) => before.events.push(event),
                    None => before.events,
                },
                ..before
            }
        }
    }
}

/// The contexts of deferred values.
pub open spec fn deferred_contexts(deferred: Seq<DeferredValueContext>) -> Seq<ContextModel> {
    deferred.map_values(|context: DeferredValueContext| context.spec_context()@)
}

/// Appends an event that may be missing.
pub fn push_event(events: &mut Vec<NativeAxEvent>, event: Option<NativeAxEvent>)
    ensures
        final(events)@ == match event {
            Some(event) => old(events)@.push(event),
            None => old(events)@,
        },
{
    if let Some(event) = event {
        events.push(event);
    }
}

impl AppObserver {
    /// Fits the registration of the focused element to a class; the calls are
    /// made only where it has to change.
    pub fn reconcile_current_value_notification_with<
        A: FnOnce() -> Result<(), NativeAxError>,
        R: FnOnce() -> Result<(), NativeAxError>,
    >(&mut self, field_class: FieldClass, register: A, unregister: R) -> (result: Result<
        (),
        RegistrationError,
    >)
        requires
            old(self).wf(),
            registration::step_ready(old(self)@.step(Some(field_class)), register, unregister),
        ensures
            final(self).wf(),
            exists|outcome: Result<(), NativeAxError>|
                {
                    &&& registration::step_called(
                        old(self)@.step(Some(field_class)),
                        register,
                        unregister,
                        outcome,
                    )
                    &&& result == registration::step_result(
                        old(self)@.step(Some(field_class)),
                        outcome,
                    )
                    &&& final(self)@ == #[trigger] old(self)@.stepped(
                        old(self)@.step(Some(field_class)),
                        outcome,
                    )
                },
    {
        let ghost before = self@;
        let element = match self.focused_target.current() {
            None => {
                let ghost unasked: Result<(), NativeAxError> = Ok(());
                assert(self@ == before.stepped(before.step(Some(field_class)), unasked));
                return Ok(());
            },
            Some(target) => target.element,
        };
        let step = self.notifications.step(element, VALUE_CHANGED, field_class);
        let outcome = registration::call_step(step, register, unregister);
        let ghost called = outcome;
        let result = self.notifications.record_step(element, VALUE_CHANGED, step, outcome);
        assert(self@ == before.stepped(before.step(Some(field_class)), called));
        result
    }

    /// Fits the registration of the focused element to a class and counts a
    /// failure; tells whether there is an element that was not refused.
    pub fn reconcile_current_value_notification<
        A: Fn(ElementId) -> Result<(), NativeAxError>,
        R: Fn(ElementId) -> Result<(), NativeAxError>,
    >(&mut self, field_class: FieldClass, add_native: &A, remove_native: &R) -> (fitted: bool)
        requires
            old(self).wf(),
            old(self)@.focused matches Some(target) ==> focus_lifecycle::element_step_ready(
                old(self)@.step(Some(field_class)),
                target.element,
                *add_native,
                *remove_native,
            ),
        ensures
            final(self).wf(),
            exists|outcome: Result<(), NativeAxError>|
                {
                    &&& old(self)@.focused matches Some(target)
                        ==> focus_lifecycle::element_step_called(
                        old(self)@.step(Some(field_class)),
                        target.element,
                        *add_native,
                        *remove_native,
                        outcome,
                    )
                    &&& final(self)@ == #[trigger] old(self)@.reconciled(field_class, outcome)
                    &&& fitted == (old(self)@.focused is Some && !(registration::step_result(
                        old(self)@.step(Some(field_class)),
                        outcome,
                    ) matches Err(RegistrationError::Register(_))))
                },
    {
        let ghost before = self@;
        let element = match self.focused_target.current() {
            None => {
                let ghost unasked: Result<(), NativeAxError> = Ok(());
                assert(self@ == before.reconciled(field_class, unasked));
                return false;
            },
            Some(target) => target.element,
        };
        let step = self.notifications.step(element, VALUE_CHANGED, field_class);
        let outcome = call_element_step(step, element, add_native, remove_native);
        let ghost called = outcome;
        let result = self.notifications.record_step(element, VALUE_CHANGED, step, outcome);
        assert(self@ == before.stepped(step, called));
        if result.is_err() {
            self.record_degraded();
        }
        assert(self@ == before.reconciled(field_class, called));
        !matches!(result, Err(RegistrationError::Register(_)))
    }

    /// Handles a changed value of the focused element.
    pub fn value_changed_events_with<
        C: FnOnce(ElementId, Option<NativeWindow>, bool, bool) -> CapturedValue,
        A: Fn(ElementId) -> Result<(), NativeAxError>,
        R: Fn(ElementId) -> Result<(), NativeAxError>,
    >(
        &mut self,
        moment: FocusMoment,
        authorizations: &mut InputAuthorizations,
        capture: C,
        add_native: &A,
        remove_native: &R,
    ) -> (events: Vec<NativeAxEvent>)
        requires
            old(self).wf(),
            old(authorizations)@.wf(),
            old(self)@.value_ready(moment.secure_input, capture, *add_native, *remove_native),
        ensures
            final(self).wf(),
            final(authorizations)@.wf(),
            exists|captured: CapturedValue, outcome: Result<(), NativeAxError>|
                {
                    &&& old(self)@.delivering() ==> call_ensures(
                        capture,
                        (
                            (old(self)@.focused->0).element,
                            (old(self)@.focused->0).context.window,
                            old(self)@.enabled,
                            moment.secure_input,
                        ),
                        captured,
                    ) && focus_lifecycle::element_step_called(
                        old(self)@.value_step(captured, moment.secure_input),
                        (old(self)@.focused->0).element,
                        *add_native,
                        *remove_native,
                        outcome,
                    )
                    &&& (final(self)@, final(authorizations)@, events@)
                        == #[trigger] old(self)@.value_changed(
                        captured,
                        outcome,
                        moment,
                        old(authorizations)@,
                    )
                },
    {
        let ghost before = self@;
        let ghost ledger = authorizations@;
        let mut events: Vec<NativeAxEvent> = Vec::new();
        let (element, window, previous_class, delivering) = match self.focused_target.current() {
            None => {
                let ghost unread: CapturedValue = vstd::pervasive::arbitrary();
                let ghost unasked: Result<(), NativeAxError> = Ok(());
                assert(events@ =~= Seq::empty());
                assert((self@, authorizations@, events@) == before.value_changed(
                    unread,
                    unasked,
                    moment,
                    ledger,
                ));
                return events;
            },
            Some(target) => (
                target.element,
                copy_window(&target.context.window),
                target.context.field_class,
                self.notifications.accepts_delivery(target.element, VALUE_CHANGED),
            ),
        };
        if !delivering {
            let ghost unread: CapturedValue = vstd::pervasive::arbitrary();
            let ghost unasked: Result<(), NativeAxError> = Ok(());
            assert(events@ =~= Seq::empty());
            assert((self@, authorizations@, events@) == before.value_changed(
                unread,
                unasked,
                moment,
                ledger,
            ));
            return events;
        }
        let value = capture(element, window, self.capture_text_content, moment.secure_input);
        let ghost captured = value;
        let CapturedValue { snapshot, decision, window, surface_changed } = value;
        let pid = self.pid;
        let class = snapshot.field_class;
        let failed = snapshot.failure.is_some();
        if failed {
            self.record_degraded();
        }
        let event = match self.focused_target.current_mut() {
            None => None,
            Some(target) => {
                target.context.window = window;
                if surface_changed {
                    let generation: u64 = target.context.generation;
                    target.context.capture.transition_class(
                        pid,
                        generation,
                        FieldClass::Unknown,
                        authorizations,
                    );
                }
                let observation = target.context.observation(
                    pid,
                    moment.notification_at,
                    moment.observed_at,
                    snapshot,
                    decision,
                );
                match target.context.capture.observe(observation, authorizations) {
                    Some(emission) => Some(target.context.value_event(pid, emission)),
                    None => None,
                }
            },
        };
        let ghost staged = self@;
        assert((staged, authorizations@, event) == before.value_staged(captured, moment, ledger));
        let ghost mut outcome: Result<(), NativeAxError> = Ok(());
        let reconciles = !moment.secure_input && !failed && !surface_changed;
        if reconciles {
            self.reconcile_current_value_notification(class, add_native, remove_native);
            proof {
                outcome =
                choose|outcome: Result<(), NativeAxError>|
                    {
                        &&& staged.focused matches Some(target)
                            ==> focus_lifecycle::element_step_called(
                            staged.step(Some(class)),
                            target.element,
                            *add_native,
                            *remove_native,
                            outcome,
                        )
                        &&& self@ == #[trigger] staged.reconciled(class, outcome)
                    };
            }
        }
        if previous_class != class {
            events.push(self.focus_event(moment.observed_at));
        }
        let ghost focus = events@;
        proof {
            assert(focus =~= if previous_class != class {
                seq![self@.focus_event(moment.observed_at)]
            } else {
                Seq::empty()
            });
        }
        push_event(&mut events, event);
        assert((self@, authorizations@, events@) == before.value_changed(
            captured,
            outcome,
            moment,
            ledger,
        ));
        events
    }

    /// Emits the values that are due: of the focused element first, then of the
    /// elements that lost the focus.
    pub fn take_due_value_events(
        &mut self,
        now: Instant,
        secure_input: bool,
        authorizations: &mut InputAuthorizations,
    ) -> (events: Vec<NativeAxEvent>)
        requires
            old(self).wf(),
            old(authorizations)@.wf(),
        ensures
            final(self).wf(),
            final(authorizations)@.wf(),
            (final(self)@, final(authorizations)@, events@) == old(self)@.due(
                now,
                secure_input,
                old(authorizations)@,
            ),
    {
        let ghost before = self@;
        let ghost ledger = authorizations@;
        let pid = self.pid;
        let mut events: Vec<NativeAxEvent> = Vec::new();
        let event = match self.focused_target.current_mut() {
            None => None,
            Some(target) => target.context.take_due(pid, now, secure_input, authorizations),
        };
        push_event(&mut events, event);
        let ghost focused = self@;
        let ghost start = authorizations@;
        let ghost first = events@;
        assert(first =~= before.focused_due(now, secure_input, ledger).2);
        assert((focused, start) == (
            before.focused_due(now, secure_input, ledger).0,
            before.focused_due(now, secure_input, ledger).1,
        ));
        let ghost contexts = focused.retired;
        let mut waiting: Vec<FocusedValueContext> = Vec::new();
        waiting.append(&mut self.retired_contexts);
        let mut kept: Vec<FocusedValueContext> = Vec::new();
        let ghost mut taken: nat = 0;
        proof {
            assert(observer::contexts_of(waiting@) =~= contexts.skip(0));
            assert(observer::contexts_of(kept@) =~= Seq::empty());
            assert(first + Seq::<NativeAxEvent>::empty() =~= first);
        }
        while waiting.len() > 0
            invariant
                taken <= contexts.len(),
                observer::contexts_of(waiting@) == contexts.skip(taken as int),
                forall|i: int| 0 <= i < contexts.len() ==> (#[trigger] contexts[i]).capture.wf(),
                forall|i: int| 0 <= i < kept@.len() ==> (#[trigger] kept@[i])@.capture.wf(),
                authorizations@.wf(),
                ({
                    let due = due_of(contexts, taken, pid, now, secure_input, start);
                    &&& observer::contexts_of(kept@) == due.kept
                    &&& authorizations@ == due.ledger
                    &&& events@ == first + due.events
                }),
            decreases waiting.len(),
        {
            let ghost held = waiting@;
            let ghost due = due_of(contexts, taken, pid, now, secure_input, start);
            let ghost kept_before = kept@;
            let context = waiting.remove(0);
            proof {
                assert(context@ == observer::contexts_of(held)[0]);
                assert(contexts.skip(taken as int).len() == held.len());
                assert(contexts.skip(taken as int)[0] == contexts[taken as int]);
                assert(observer::contexts_of(waiting@) =~= observer::contexts_of(held).skip(1));
                assert(contexts.skip(taken as int).skip(1) =~= contexts.skip((taken + 1) as int));
            }
            let mut deferred = DeferredValueContext::new(pid, context);
            let resolution = deferred.take_due(now, secure_input, authorizations);
            match resolution {
                DeferredResolution::Pending => {
                    let context = deferred.into_context();
                    let ghost after = context@;
                    kept.push(context);
                    assert(observer::contexts_of(kept@) =~= observer::contexts_of(
                        kept_before,
                    ).push(after));
                },
                DeferredResolution::Complete(event) => {
                    let ghost sent = event;
                    push_event(&mut events, event);
                    proof {
                        if sent is Some {
                            assert((first + due.events).push(sent->0) =~= first + due.events.push(
                                sent->0,
                            ));
                        }
                    }
                },
            }
            proof {
                taken = taken + 1;
            }
        }
        assert(taken == contexts.len()) by {
            assert(contexts.skip(taken as int).len() == 0);
        }
        self.retired_contexts = kept;
        assert(self@.retired =~= due_of(contexts, taken, pid, now, secure_input, start).kept);
        assert((self@, authorizations@, events@) == before.due(now, secure_input, ledger));
        events
    }
}

impl ObserverModel {
    /// The observer, the ledger and the events once the focused element was asked
    /// for a due value.
    pub open spec fn focused_due(
        self,
        now: Instant,
        secure_input: bool,
        ledger: LedgerModel,
    ) -> (ObserverModel, LedgerModel, Seq<NativeAxEvent>) {
        match self.focused {
            None => (self, ledger, Seq::empty()),
            Some(target) => {
                let (context, ledger_after, event) = target.context.due(
                    self.pid,
                    now,
                    secure_input,
                    ledger,
                );
                (
                    self.with_context(context),
                    ledger_after,
                    match event {
                        Some(event) => seq![event],
                        None => Seq::empty(),
                    },
                )
            },
        }
    }

    /// The observer, the ledger and the events once due values were looked for.
    pub open spec fn due(self, now: Instant, secure_input: bool, ledger: LedgerModel) -> (
        ObserverModel,
        LedgerModel,
        Seq<NativeAxEvent>,
    ) {
        let (focused, start, first) = self.focused_due(now, secure_input, ledger);
        let retired = due_of(
            self.retired,
            self.retired.len(),
            self.pid,
            now,
            secure_input,
            start,
        );
        (
            ObserverModel { retired: retired.kept, ..focused },
            retired.ledger,
            first + retired.events,
        )
    }
}

impl ObserverModel {
    /// The observer, the ledger and the events once the focused value was
    /// flushed.
    pub open spec fn focused_flush(self, secure_input: bool, ledger: LedgerModel) -> (
        ObserverModel,
        LedgerModel,
        Seq<NativeAxEvent>,
    ) {
        match self.focused {
            None => (self, ledger, Seq::empty()),
            Some(target) => {
                let (context, ledger_after, event) = target.context.emptied(
                    self.pid,
                    secure_input,
                    ledger,
                );
                (
                    self.with_context(context),
                    ledger_after,
                    match event {
                        Some(event) => seq![event],
                        None => Seq::empty(),
                    },
                )
            },
        }
    }

    /// The observer, the ledger and the events once every held value was flushed.
    pub open spec fn flushed(self, secure_input: bool, ledger: LedgerModel) -> (
        ObserverModel,
        LedgerModel,
        Seq<NativeAxEvent>,
    ) {
        let (focused, start, first) = self.focused_flush(secure_input, ledger);
        let (ledger_after, events) = flushed_of(
            self.retired,
            self.retired.len(),
            self.pid,
            secure_input,
            start,
        );
        (ObserverModel { retired: Seq::empty(), ..focused }, ledger_after, first + events)
    }

    /// The observer once its focused element was let go for good.
    pub open spec fn detaching(self, removed: Result<(), NativeAxError>) -> ObserverModel {
        self.committed(None, true, removed)
    }
}

impl AppObserver {
    /// Emits every held value, due or not.
    pub fn flush_pending(
        &mut self,
        secure_input: bool,
        authorizations: &mut InputAuthorizations,
    ) -> (events: Vec<NativeAxEvent>)
        requires
            old(self).wf(),
            old(authorizations)@.wf(),
        ensures
            final(self).wf(),
            final(authorizations)@.wf(),
            (final(self)@, final(authorizations)@, events@) == old(self)@.flushed(
                secure_input,
                old(authorizations)@,
            ),
    {
        let ghost before = self@;
        let ghost ledger = authorizations@;
        let pid = self.pid;
        let mut events: Vec<NativeAxEvent> = Vec::new();
        let event = match self.focused_target.current_mut() {
            None => None,
            Some(target) => target.context.flush(pid, secure_input, authorizations),
        };
        push_event(&mut events, event);
        let ghost focused = self@;
        let ghost start = authorizations@;
        let ghost first = events@;
        assert(first =~= before.focused_flush(secure_input, ledger).2);
        let ghost contexts = focused.retired;
        let mut waiting: Vec<FocusedValueContext> = Vec::new();
        waiting.append(&mut self.retired_contexts);
        let ghost mut taken: nat = 0;
        proof {
            assert(observer::contexts_of(waiting@) =~= contexts.skip(0));
            assert(first + Seq::<NativeAxEvent>::empty() =~= first);
        }
        while waiting.len() > 0
            invariant
                taken <= contexts.len(),
                observer::contexts_of(waiting@) == contexts.skip(taken as int),
                forall|i: int| 0 <= i < contexts.len() ==> (#[trigger] contexts[i]).capture.wf(),
                authorizations@.wf(),
                ({
                    let (ledger_now, sent) = flushed_of(contexts, taken, pid, secure_input, start);
                    &&& authorizations@ == ledger_now
                    &&& events@ == first + sent
                }),
            decreases waiting.len(),
        {
            let ghost held = waiting@;
            let ghost sent = flushed_of(contexts, taken, pid, secure_input, start).1;
            let context = waiting.remove(0);
            proof {
                assert(context@ == observer::contexts_of(held)[0]);
                assert(contexts.skip(taken as int).len() == held.len());
                assert(contexts.skip(taken as int)[0] == contexts[taken as int]);
                assert(observer::contexts_of(waiting@) =~= observer::contexts_of(held).skip(1));
                assert(contexts.skip(taken as int).skip(1) =~= contexts.skip((taken + 1) as int));
            }
            let mut deferred = DeferredValueContext::new(pid, context);
            let event = deferred.flush(secure_input, authorizations);
            let ghost found = event;
            push_event(&mut events, event);
            proof {
                if found is Some {
                    assert((first + sent).push(found->0) =~= first + sent.push(found->0));
                }
                taken = taken + 1;
            }
        }
        assert(taken == contexts.len()) by {
            assert(contexts.skip(taken as int).len() == 0);
        }
        assert(self@.retired =~= Seq::empty());
        assert((self@, authorizations@, events@) == before.flushed(secure_input, ledger));
        events
    }

    /// Lets every value of an application that goes away out, or defers it while
    /// the worker may still confirm it.
    pub fn detach_values<R: Fn(ElementId) -> Result<(), NativeAxError>>(
        &mut self,
        secure_input: bool,
        authorizations: &mut InputAuthorizations,
        remove_native: &R,
    ) -> (values: (Vec<NativeAxEvent>, Vec<DeferredValueContext>))
        requires
            old(self).wf(),
            old(authorizations)@.wf(),
            old(self)@.release_ready(*remove_native),
        ensures
            final(self).wf(),
            final(authorizations)@.wf(),
            forall|i: int|
                0 <= i < values.1@.len() ==> (#[trigger] values.1@[i]).spec_pid() == old(self)@.pid
                    && values.1@[i].spec_context()@.capture.wf(),
            exists|removed: Result<(), NativeAxError>|
                {
                    &&& old(self)@.focused matches Some(previous) ==> (
                    old(self)@.registry.contains_key(observer::value_key(previous.element))
                        ==> call_ensures(*remove_native, (previous.element,), removed))
                    &&& ({
                        let detaching = #[trigger] old(self)@.detaching(removed);
                        let detached = detached_of(
                            detaching.retired,
                            detaching.retired.len(),
                            detaching.pid,
                            secure_input,
                            old(authorizations)@,
                        );
                        &&& final(self)@ == (ObserverModel { retired: Seq::empty(), ..detaching })
                        &&& final(authorizations)@ == detached.ledger
                        &&& values.0@ == detached.events
                        &&& deferred_contexts(values.1@) == detached.deferred
                    })
                },
    {
        let ghost before = self@;
        self.commit_focused_target(None, true, remove_native);
        let ghost detaching = self@;
        let ghost removed = choose|removed: Result<(), NativeAxError>|
            {
                &&& before.focused matches Some(previous) ==> (before.registry.contains_key(
                    observer::value_key(previous.element),
                ) ==> call_ensures(*remove_native, (previous.element,), removed))
                &&& detaching == #[trigger] before.committed(None, true, removed)
            };
        assert(detaching == before.detaching(removed));
        let pid = self.pid;
        let ghost contexts = detaching.retired;
        let ghost start = authorizations@;
        let mut immediate: Vec<NativeAxEvent> = Vec::new();
        let mut deferred: Vec<DeferredValueContext> = Vec::new();
        let mut waiting: Vec<FocusedValueContext> = Vec::new();
        waiting.append(&mut self.retired_contexts);
        let ghost mut taken: nat = 0;
        proof {
            assert(observer::contexts_of(waiting@) =~= contexts.skip(0));
            assert(immediate@ =~= Seq::empty());
            assert(deferred_contexts(deferred@) =~= Seq::empty());
        }
        while waiting.len() > 0
            invariant
                taken <= contexts.len(),
                observer::contexts_of(waiting@) == contexts.skip(taken as int),
                forall|i: int| 0 <= i < contexts.len() ==> (#[trigger] contexts[i]).capture.wf(),
                forall|i: int|
                    0 <= i < deferred@.len() ==> (#[trigger] deferred@[i]).spec_pid() == pid
                        && deferred@[i].spec_context()@.capture.wf(),
                authorizations@.wf(),
                ({
                    let detached = detached_of(contexts, taken, pid, secure_input, start);
                    &&& authorizations@ == detached.ledger
                    &&& immediate@ == detached.events
                    &&& deferred_contexts(deferred@) == detached.deferred
                }),
            decreases waiting.len(),
        {
            let ghost held = waiting@;
            let ghost deferred_before = deferred@;
            let context = waiting.remove(0);
            proof {
                assert(context@ == observer::contexts_of(held)[0]);
                assert(contexts.skip(taken as int).len() == held.len());
                assert(contexts.skip(taken as int)[0] == contexts[taken as int]);
                assert(observer::contexts_of(waiting@) =~= observer::contexts_of(held).skip(1));
                assert(contexts.skip(taken as int).skip(1) =~= contexts.skip((taken + 1) as int));
            }
            let ghost value = context@;
            let mut retired = DeferredValueContext::new(pid, context);
            if !secure_input && retired.authorization_is_pending(authorizations) {
                deferred.push(retired);
                assert(deferred_contexts(deferred@) =~= deferred_contexts(deferred_before).push(
                    value,
                ));
            } else {
                let event = retired.flush(secure_input, authorizations);
                push_event(&mut immediate, event);
            }
            proof {
                taken = taken + 1;
            }
        }
        assert(taken == contexts.len()) by {
            assert(contexts.skip(taken as int).len() == 0);
        }
        assert(self@.retired =~= Seq::empty());
        assert(self@ == (ObserverModel { retired: Seq::empty(), ..detaching }));
        (immediate, deferred)
    }
}

/// Secure input lets no value of an observer out, neither when it is due nor
/// when everything is flushed.
pub proof fn law_secure_input_silences_values(
    observer: ObserverModel,
    now: Instant,
    ledger: LedgerModel,
)
    ensures
        observer.due(now, true, ledger).2.len() == 0,
        observer.due(now, true, ledger).0.retired.len() == 0,
        observer.flushed(true, ledger).2.len() == 0,
{
    let (_, start, _) = observer.focused_due(now, true, ledger);
    lemma_secure_due(observer.retired, observer.retired.len(), observer.pid, now, start);
    let (_, flush_start, _) = observer.focused_flush(true, ledger);
    lemma_secure_flush(observer.retired, observer.retired.len(), observer.pid, flush_start);
}

proof fn lemma_secure_due(
    contexts: Seq<ContextModel>,
    count: nat,
    pid: i32,
    now: Instant,
    ledger: LedgerModel,
)
    ensures
        due_of(contexts, count, pid, now, true, ledger).events.len() == 0,
        due_of(contexts, count, pid, now, true, ledger).kept.len() == 0,
    decreases count,
{
    if count > 0 {
        lemma_secure_due(contexts, (count - 1) as nat, pid, now, ledger);
    }
}

proof fn lemma_secure_flush(
    contexts: Seq<ContextModel>,
    count: nat,
    pid: i32,
    ledger: LedgerModel,
)
    ensures
        flushed_of(contexts, count, pid, true, ledger).1.len() == 0,
    decreases count,
{
    if count > 0 {
        lemma_secure_flush(contexts, (count - 1) as nat, pid, ledger);
    }
}

/// Values leave the registration alone: looking for due values or flushing them
/// never changes which notifications are registered.
pub proof fn law_values_keep_the_registration(
    observer: ObserverModel,
    now: Instant,
    secure_input: bool,
    ledger: LedgerModel,
)
    ensures
        observer.due(now, secure_input, ledger).0.registry == observer.registry,
        observer.due(now, secure_input, ledger).0.delivering() == observer.delivering(),
        observer.flushed(secure_input, ledger).0.registry == observer.registry,
        observer.flushed(secure_input, ledger).0.delivering() == observer.delivering(),
{
}

/// A value whose surface changed while it was read keeps the registration as it
/// is and lets nothing of the previous surface out.
pub proof fn law_surface_change_keeps_the_registration(
    observer: ObserverModel,
    captured: CapturedValue,
    outcome: Result<(), NativeAxError>,
    moment: FocusMoment,
    ledger: LedgerModel,
)
    requires
        observer.delivering(),
        captured.surface_changed,
        captured.snapshot.field_class is Unknown,
    ensures
        ({
            let (after, _, events) = observer.value_changed(captured, outcome, moment, ledger);
            &&& after.registry == observer.registry
            &&& after.delivering()
            &&& (after.focused->0).context.capture.pending is None
            &&& (after.focused->0).context.capture.baseline is None
            &&& forall|i: int|
                0 <= i < events.len() ==> !((#[trigger] events[i]) is UiValueChanged)
        }),
{
}

/// A changed value is told of the focused element alone, and only while its notification delivers; then it is
/// read once, of that element and its window. A changed class is told first, as a focus event.
pub proof fn law_changed_values_are_those_of_the_focus<
    C: FnOnce(ElementId, Option<NativeWindow>, bool, bool) -> CapturedValue,
    A: Fn(ElementId) -> Result<(), NativeAxError>,
    R: Fn(ElementId) -> Result<(), NativeAxError>,
>(
    call: Subject<AppObserver>,
    moment: FocusMoment,
    ledger: Subject<InputAuthorizations>,
    capture: C,
    add_native: &A,
    remove_native: &R,
    events: Vec<NativeAxEvent>,
)
    requires
        call.on.wf() && ledger.on@.wf(),
        call_ensures(
            AppObserver::value_changed_events_with::<C, A, R>,
            (call.on, moment, ledger.on, capture, add_native, remove_native),
            events,
        ),
    ensures
        !(old(call.on)@.focused is Some && old(call.on)@.registry.contains_key(
            (old(call.on)@.focused->0.element, "AXValueChanged"@),
        ) && old(call.on)@.registry[(old(call.on)@.focused->0.element, "AXValueChanged"@)] is Active)
            ==> events@.len() == 0 && final(call.on)@ == old(call.on)@ && final(ledger.on)@ == old(ledger.on)@,
        events@.len() <= 2,
        events@.len() == 2 ==> events@[0] is UiFocused && events@[1] is UiValueChanged,
        forall|i: int|
            0 <= i < events@.len() ==> (#[trigger] events@[i] matches NativeAxEvent::UiValueChanged(told)
                ==> told.pid == old(call.on)@.pid && told.observed_at == Some(moment.observed_at)),
        old(call.on)@.delivering() ==> exists|captured: CapturedValue|
            {
                &&& #[trigger] call_ensures(
                    capture,
                    (
                        old(call.on)@.focused->0.element,
                        old(call.on)@.focused->0.context.window,
                        old(call.on)@.enabled,
                        moment.secure_input,
                    ),
                    captured,
                )
                &&& final(call.on)@.focused is Some
                &&& final(call.on)@.focused->0.element == old(call.on)@.focused->0.element
                &&& final(call.on)@.focused->0.context.field_class == captured.snapshot.field_class
                &&& final(call.on)@.focused->0.context.window == captured.window
                &&& final(call.on)@.focused->0.context.element.value_len == captured.snapshot.value_len
                &&& (events@.len() > 0 && events@[0] is UiFocused) <==> (
                old(call.on)@.focused->0.context.field_class != captured.snapshot.field_class)
                &&& captured.snapshot.field_class is SecureText || captured.snapshot.field_class is Unknown
                    ==> final(call.on)@.focused->0.context.capture.pending is None
                &&& captured.snapshot.field_class is KnownText || captured.snapshot.field_class
                    is KnownSafeNonText ==> final(call.on)@.focused->0.context.capture.pending is Some
                    && final(call.on)@.focused->0.context.capture.pending->0.value
                    == captured.snapshot.value
            },
        final(call.on)@.retired == old(call.on)@.retired && final(call.on)@.generation
            == old(call.on)@.generation && final(call.on)@.window_target == old(call.on)@.window_target,
{
    let before = call.on@;
    let (captured, outcome) = choose|captured: CapturedValue, outcome: Result<(), NativeAxError>|
        {
            &&& before.delivering() ==> call_ensures(
                capture,
                (
                    (before.focused->0).element,
                    (before.focused->0).context.window,
                    before.enabled,
                    moment.secure_input,
                ),
                captured,
            ) && focus_lifecycle::element_step_called(
                before.value_step(captured, moment.secure_input),
                (before.focused->0).element,
                *add_native,
                *remove_native,
                outcome,
            )
            &&& (final(call.on)@, final(ledger.on)@, events@) == #[trigger] before.value_changed(
                captured,
                outcome,
                moment,
                ledger.on@,
            )
        };
    assert(before.delivering() ==> call_ensures(
        capture,
        (
            before.focused->0.element,
            before.focused->0.context.window,
            before.enabled,
            moment.secure_input,
        ),
        captured,
    ));
}

pub(crate) proof fn lemma_due_events(
    contexts: Seq<ContextModel>,
    count: nat,
    pid: i32,
    now: Instant,
    secure_input: bool,
    ledger: LedgerModel,
)
    requires
        count <= contexts.len(),
    ensures
        ({
            let due = due_of(contexts, count, pid, now, secure_input, ledger);
            &&& secure_input ==> due.events.len() == 0 && due.kept.len() == 0
            &&& due.events.len() + due.kept.len() <= count
            &&& !secure_input && (forall|i: int|
                0 <= i < count ==> (#[trigger] contexts[i]).capture.pending is Some)
                ==> due.events.len() + due.kept.len() == count
            &&& forall|i: int|
                0 <= i < due.events.len() ==> (#[trigger] due.events[i]) is UiValueChanged
                    && due.events[i]->UiValueChanged_0.pid == pid
            &&& forall|i: int|
                0 <= i < due.kept.len() ==> contexts.contains(#[trigger] due.kept[i])
                    && due.kept[i].capture.pending is Some
                    && now.nanos < due.kept[i].capture.pending->0.last_observed_at.nanos + 1_000_000_000
        }),
    decreases count,
{
    if count > 0 {
        lemma_due_events(contexts, (count - 1) as nat, pid, now, secure_input, ledger);
        assert(contexts.contains(contexts[count - 1]));
    }
}

/// Looking for due values tells value events of the observed process only, one for each held value that is
/// due. What is not due stays; under secure input nothing is told and nothing stays.
pub proof fn law_due_values_are_told_once(
    call: Subject<AppObserver>,
    now: Instant,
    secure_input: bool,
    ledger: Subject<InputAuthorizations>,
    events: Vec<NativeAxEvent>,
)
    requires
        call.on.wf() && ledger.on@.wf(),
        call_ensures(
            AppObserver::take_due_value_events,
            (call.on, now, secure_input, ledger.on),
            events,
        ),
    ensures
        secure_input ==> events@.len() == 0 && final(call.on)@.retired.len() == 0,
        events@.len() + final(call.on)@.retired.len() <= old(call.on)@.retired.len() + 1,
        forall|i: int|
            0 <= i < events@.len() ==> (#[trigger] events@[i]) is UiValueChanged
                && events@[i]->UiValueChanged_0.pid == old(call.on)@.pid,
        forall|i: int|
            0 <= i < final(call.on)@.retired.len() ==> old(call.on)@.retired.contains(
                #[trigger] final(call.on)@.retired[i],
            ) && final(call.on)@.retired[i].capture.pending is Some,
        !secure_input && (forall|i: int|
            0 <= i < old(call.on)@.retired.len() ==> (#[trigger] old(call.on)@.retired[i]).capture.pending is Some)
            && old(call.on)@.focused is None ==> events@.len() + final(call.on)@.retired.len()
            == old(call.on)@.retired.len(),
        !secure_input && old(call.on)@.focused is Some && (old(call.on)@.focused->0.context.capture.pending
            matches Some(held) && now.nanos >= held.last_observed_at.nanos + 1_000_000_000)
            ==> events@.len() > 0 && final(call.on)@.focused->0.context.capture.pending is None
            && events@[0]->UiValueChanged_0.element.value_len
            == old(call.on)@.focused->0.context.capture.pending->0.value_len,
        final(call.on)@.registry == old(call.on)@.registry && final(call.on)@.generation
            == old(call.on)@.generation,
{
    let before = call.on@;
    let start = before.focused_due(now, secure_input, ledger.on@).1;
    lemma_due_events(before.retired, before.retired.len(), before.pid, now, secure_input, start);
}

pub(crate) proof fn lemma_flushed_events(
    contexts: Seq<ContextModel>,
    count: nat,
    pid: i32,
    secure_input: bool,
    ledger: LedgerModel,
)
    requires
        count <= contexts.len(),
    ensures
        secure_input ==> flushed_of(contexts, count, pid, secure_input, ledger).1.len() == 0,
        flushed_of(contexts, count, pid, secure_input, ledger).1.len() <= count,
        !secure_input && (forall|i: int|
            0 <= i < count ==> (#[trigger] contexts[i]).capture.pending is Some) ==> flushed_of(
            contexts,
            count,
            pid,
            secure_input,
            ledger,
        ).1.len() == count,
        forall|i: int|
            0 <= i < flushed_of(contexts, count, pid, secure_input, ledger).1.len() ==> (
            #[trigger] flushed_of(contexts, count, pid, secure_input, ledger).1[i]) is UiValueChanged
                && flushed_of(contexts, count, pid, secure_input, ledger).1[i]->UiValueChanged_0.pid
                == pid,
    decreases count,
{
    if count > 0 {
        lemma_flushed_events(contexts, (count - 1) as nat, pid, secure_input, ledger);
    }
}

/// A flush tells every held value at once, in value events of the observed process, and leaves none held;
/// under secure input it tells none.
pub proof fn law_flushes_tell_every_held_value(
    call: Subject<AppObserver>,
    secure_input: bool,
    ledger: Subject<InputAuthorizations>,
    events: Vec<NativeAxEvent>,
)
    requires
        call.on.wf() && ledger.on@.wf(),
        call_ensures(AppObserver::flush_pending, (call.on, secure_input, ledger.on), events),
    ensures
        final(call.on)@.retired.len() == 0,
        final(call.on)@.focused matches Some(target) ==> target.context.capture.pending is None,
        secure_input ==> events@.len() == 0,
        !secure_input && (forall|i: int|
            0 <= i < old(call.on)@.retired.len() ==> (#[trigger] old(call.on)@.retired[i]).capture.pending is Some)
            ==> events@.len() == old(call.on)@.retired.len() + if old(call.on)@.focused is Some
            && old(call.on)@.focused->0.context.capture.pending is Some {
            1nat
        } else {
            0
        },
        forall|i: int|
            0 <= i < events@.len() ==> (#[trigger] events@[i]) is UiValueChanged
                && events@[i]->UiValueChanged_0.pid == old(call.on)@.pid,
        final(call.on)@.registry == old(call.on)@.registry && final(call.on)@.generation
            == old(call.on)@.generation,
{
    let before = call.on@;
    let start = before.focused_flush(secure_input, ledger.on@).1;
    lemma_flushed_events(before.retired, before.retired.len(), before.pid, secure_input, start);
}

pub(crate) proof fn lemma_detached(
    contexts: Seq<ContextModel>,
    count: nat,
    pid: i32,
    secure_input: bool,
    ledger: LedgerModel,
)
    requires
        count <= contexts.len(),
    ensures
        ({
            let detached = detached_of(contexts, count, pid, secure_input, ledger);
            &&& secure_input ==> detached.events.len() == 0 && detached.deferred.len() == 0
            &&& detached.events.len() + detached.deferred.len() <= count
            &&& !secure_input && (forall|i: int|
                0 <= i < count ==> (#[trigger] contexts[i]).capture.pending is Some)
                ==> detached.events.len() + detached.deferred.len() == count
            &&& forall|i: int|
                0 <= i < detached.events.len() ==> (#[trigger] detached.events[i]) is UiValueChanged
                    && detached.events[i]->UiValueChanged_0.pid == pid
            &&& forall|i: int|
                0 <= i < detached.deferred.len() ==> contexts.contains(#[trigger] detached.deferred[i])
                    && detached.deferred[i].capture.pending is Some
        }),
    decreases count,
{
    if count > 0 {
        lemma_detached(contexts, (count - 1) as nat, pid, secure_input, ledger);
        assert(contexts.contains(contexts[count - 1]));
    }
}

/// Letting an application go leaves nothing focused or held in its observer: each held value is told or
/// deferred, and under secure input neither. The focused element's notification is taken back.
pub proof fn law_detached_values_are_told_or_deferred<R: Fn(ElementId) -> Result<(), NativeAxError>>(
    call: Subject<AppObserver>,
    secure_input: bool,
    ledger: Subject<InputAuthorizations>,
    remove_native: &R,
    events: Vec<NativeAxEvent>,
    deferred: Vec<DeferredValueContext>,
)
    requires
        call.on.wf() && ledger.on@.wf(),
        call_ensures(
            AppObserver::detach_values::<R>,
            (call.on, secure_input, ledger.on, remove_native),
            (events, deferred),
        ),
    ensures
        final(call.on)@.focused is None && final(call.on)@.retired.len() == 0,
        secure_input ==> events@.len() == 0 && deferred@.len() == 0,
        events@.len() + deferred@.len() <= old(call.on)@.retired.len() + 1,
        !secure_input && (forall|i: int|
            0 <= i < old(call.on)@.retired.len() ==> (#[trigger] old(call.on)@.retired[i]).capture.pending is Some)
            && old(call.on)@.focused is Some && old(call.on)@.focused->0.context.capture.pending is Some
            ==> events@.len() + deferred@.len() == old(call.on)@.retired.len() + 1,
        forall|i: int|
            0 <= i < events@.len() ==> (#[trigger] events@[i]) is UiValueChanged
                && events@[i]->UiValueChanged_0.pid == old(call.on)@.pid,
        forall|i: int|
            0 <= i < deferred@.len() ==> (#[trigger] deferred@[i]).spec_pid() == old(call.on)@.pid
                && deferred@[i].spec_context()@.capture.pending is Some,
        old(call.on)@.focused is Some ==> !(final(call.on)@.registry.contains_key(
            (old(call.on)@.focused->0.element, "AXValueChanged"@),
        ) && final(call.on)@.registry[(old(call.on)@.focused->0.element, "AXValueChanged"@)] is Active),
{
    let before = call.on@;
    let removed = choose|removed: Result<(), NativeAxError>|
        {
            &&& before.focused matches Some(previous) ==> (before.registry.contains_key(
                observer::value_key(previous.element),
            ) ==> call_ensures(*remove_native, (previous.element,), removed))
            &&& ({
                let detaching = #[trigger] before.detaching(removed);
                let detached = detached_of(
                    detaching.retired,
                    detaching.retired.len(),
                    detaching.pid,
                    secure_input,
                    ledger.on@,
                );
                &&& final(call.on)@ == (ObserverModel { retired: Seq::empty(), ..detaching })
                &&& final(ledger.on)@ == detached.ledger
                &&& events@ == detached.events
                &&& deferred_contexts(deferred@) == detached.deferred
            })
        };
    let detaching = before.detaching(removed);
    lemma_detached(
        detaching.retired,
        detaching.retired.len(),
        detaching.pid,
        secure_input,
        ledger.on@,
    );
    let kept = detached_of(
        detaching.retired,
        detaching.retired.len(),
        detaching.pid,
        secure_input,
        ledger.on@,
    ).deferred;
    assert(deferred_contexts(deferred@).len() == deferred@.len());
    assert forall|i: int| 0 <= i < deferred@.len() implies (
    #[trigger] deferred@[i]).spec_context()@.capture.pending is Some by {
        assert(deferred_contexts(deferred@)[i] == kept[i]);
    }
}

} // verus!
