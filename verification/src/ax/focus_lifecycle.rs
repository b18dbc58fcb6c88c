//! Focus changes of an observed application.

use vstd::prelude::*;

use super::element::{ValueFieldSnapshot, ValueSnapshot};
use super::initial_snapshot::FocusedElementSnapshot;
use super::observer;
use super::observer::{
    AppObserver, FocusChangeResolution, FocusMoment, FocusOutcomes, ObserverModel,
    RegisteredFocusedTarget, VALUE_CHANGED,
};
use super::registration;
use super::registration::{value_notification_eligible, RegistrationError, RegistrationStep};
use super::types::{ElementId, NativeAxError, NativeAxEvent, NativeAxObservation};
use super::value_context::{classified_field_snapshot, FocusedValueContext};
use crate::focused_field::{field_class, FieldClass};
use crate::focused_field;
use crate::subject::Subject;
use crate::text::as_text;
use crate::text;
use crate::text_capture::authorization::{InputAuthorizations, LedgerModel};
use crate::text_capture::policy::CapturePolicy;
use crate::text_capture::value::FocusChangeCapture;
use crate::window_list::copy_window;

verus! {

/// Whether `outcome` is what the calls of a step on an element gave.
pub open spec fn element_step_called<
    A: Fn(ElementId) -> Result<(), NativeAxError>,
    R: Fn(ElementId) -> Result<(), NativeAxError>,
>(
    step: RegistrationStep,
    element: ElementId,
    add_native: A,
    remove_native: R,
    outcome: Result<(), NativeAxError>,
) -> bool {
    match step {
        RegistrationStep::Keep => outcome is Ok,
        RegistrationStep::Add => call_ensures(add_native, (element,), outcome),
        RegistrationStep::Remove => call_ensures(remove_native, (element,), outcome),
    }
}

/// Whether the calls of a step on an element can be made.
pub open spec fn element_step_ready<
    A: Fn(ElementId) -> Result<(), NativeAxError>,
    R: Fn(ElementId) -> Result<(), NativeAxError>,
>(step: RegistrationStep, element: ElementId, add_native: A, remove_native: R) -> bool {
    match step {
        RegistrationStep::Keep => true,
        RegistrationStep::Add => call_requires(add_native, (element,)),
        RegistrationStep::Remove => call_requires(remove_native, (element,)),
    }
}

/// Makes the calls of a step on an element.
pub fn call_element_step<
    A: Fn(ElementId) -> Result<(), NativeAxError>,
    R: Fn(ElementId) -> Result<(), NativeAxError>,
>(step: RegistrationStep, element: ElementId, add_native: &A, remove_native: &R) -> (outcome:
    Result<(), NativeAxError>)
    requires
        element_step_ready(step, element, *add_native, *remove_native),
    ensures
        element_step_called(step, element, *add_native, *remove_native, outcome),
{
    match step {
        RegistrationStep::Keep => Ok(()),
        RegistrationStep::Add => add_native(element),
        RegistrationStep::Remove => remove_native(element),
    }
}

impl FocusOutcomes {
    /// Whether these are the answers to the calls that a focus change made.
    pub open spec fn called<
        F: FnOnce(ElementId, bool) -> ValueFieldSnapshot,
        S: FnOnce(ElementId, bool) -> Result<Option<FocusedElementSnapshot>, NativeAxError>,
        V: FnOnce(ElementId, bool, bool) -> ValueSnapshot,
        A: Fn(ElementId) -> Result<(), NativeAxError>,
        R: Fn(ElementId) -> Result<(), NativeAxError>,
    >(
        self,
        before: ObserverModel,
        target: Result<Option<ElementId>, NativeAxError>,
        policy: CapturePolicy,
        secure_input: bool,
        read_field: F,
        read_snapshot: S,
        read_value: V,
        add_native: A,
        remove_native: R,
    ) -> bool {
        match target {
            Err(_) => true,
            Ok(target) => if before.same_target(target) {
                before.focused matches Some(current) ==> {
                    &&& call_ensures(read_field, (current.element, secure_input), self.field)
                    &&& element_step_called(
                        before.step(ObserverModel::registration_class(self.field)),
                        current.element,
                        add_native,
                        remove_native,
                        self.registered,
                    )
                }
            } else {
                &&& match target {
                    Some(element) => call_ensures(
                        read_snapshot,
                        (element, secure_input),
                        self.snapshot,
                    ),
                    None => self.snapshot == Ok::<Option<FocusedElementSnapshot>, NativeAxError>(
                        None,
                    ),
                }
                &&& self.snapshot matches Ok(snapshot) ==> {
                    &&& before.registers(target, snapshot) ==> call_ensures(
                        add_native,
                        (target->0,),
                        self.added,
                    )
                    &&& !before.refused(target, snapshot, self.added) && before.added(
                        target,
                        snapshot,
                        self.added,
                    ).delivering() ==> call_ensures(
                        read_value,
                        (
                            (before.focused->0).element,
                            before.allowed(policy, (before.focused->0).context.window),
                            secure_input,
                        ),
                        self.value,
                    )
                }
            },
        }
    }
}

/// Whether `read` is what reading a newly focused element gave; where none is
/// focused, nothing is read.
pub open spec fn snapshot_read<
    S: FnOnce(ElementId, bool) -> Result<Option<FocusedElementSnapshot>, NativeAxError>,
>(
    target: Option<ElementId>,
    secure_input: bool,
    read_snapshot: S,
    read: Result<Option<FocusedElementSnapshot>, NativeAxError>,
) -> bool {
    match target {
        Some(element) => call_ensures(read_snapshot, (element, secure_input), read),
        None => read == Ok::<Option<FocusedElementSnapshot>, NativeAxError>(None),
    }
}

impl ObserverModel {
    /// Whether the registration of the focused element can be taken back, as far as
    /// there is one.
    pub open spec fn release_ready<R: Fn(ElementId) -> Result<(), NativeAxError>>(
        self,
        remove_native: R,
    ) -> bool {
        self.focused matches Some(previous) ==> (self.registry.contains_key(
            observer::value_key(previous.element),
        ) ==> call_requires(remove_native, (previous.element,)))
    }

    /// Whether the focus moves on to an element that was read and registered so.
    pub open spec fn moves_by<
        S: FnOnce(ElementId, bool) -> Result<Option<FocusedElementSnapshot>, NativeAxError>,
        A: Fn(ElementId) -> Result<(), NativeAxError>,
    >(
        self,
        target: Option<ElementId>,
        secure_input: bool,
        read_snapshot: S,
        add_native: A,
        read: Result<Option<FocusedElementSnapshot>, NativeAxError>,
        added: Result<(), NativeAxError>,
    ) -> bool {
        &&& snapshot_read(target, secure_input, read_snapshot, read)
        &&& read is Ok
        &&& self.registers(target, read->Ok_0) ==> call_ensures(
            add_native,
            (target->0,),
            added,
        )
        &&& !self.refused(target, read->Ok_0, added)
    }

    /// Whether the calls that a focus change makes can be made, whatever the
    /// earlier ones answer.
    pub open spec fn focus_ready<
        F: FnOnce(ElementId, bool) -> ValueFieldSnapshot,
        S: FnOnce(ElementId, bool) -> Result<Option<FocusedElementSnapshot>, NativeAxError>,
        V: FnOnce(ElementId, bool, bool) -> ValueSnapshot,
        A: Fn(ElementId) -> Result<(), NativeAxError>,
        R: Fn(ElementId) -> Result<(), NativeAxError>,
    >(
        self,
        target: Result<Option<ElementId>, NativeAxError>,
        policy: CapturePolicy,
        secure_input: bool,
        read_field: F,
        read_snapshot: S,
        read_value: V,
        add_native: A,
        remove_native: R,
    ) -> bool {
        match target {
            Err(_) => true,
            Ok(target) => if self.same_target(target) {
                self.class_ready(secure_input, read_field, add_native, remove_native)
            } else {
                &&& target matches Some(element) ==> call_requires(
                    read_snapshot,
                    (element, secure_input),
                )
                &&& forall|read: Result<Option<FocusedElementSnapshot>, NativeAxError>| #[trigger]
                    snapshot_read(target, secure_input, read_snapshot, read) && read is Ok
                        && self.registers(target, read->Ok_0) ==> call_requires(
                        add_native,
                        (target->0,),
                    )
                &&& forall|
                    read: Result<Option<FocusedElementSnapshot>, NativeAxError>,
                    added: Result<(), NativeAxError>,
                | #[trigger]
                    self.moves_by(target, secure_input, read_snapshot, add_native, read, added)
                        ==> {
                        &&& self.delivering() ==> call_requires(
                            read_value,
                            (
                                (self.focused->0).element,
                                self.allowed(policy, (self.focused->0).context.window),
                                secure_input,
                            ),
                        )
                        &&& self.release_ready(remove_native)
                    }
            },
        }
    }

    /// Whether the calls that classifying the focused element anew makes can be
    /// made.
    pub open spec fn class_ready<
        F: FnOnce(ElementId, bool) -> ValueFieldSnapshot,
        A: Fn(ElementId) -> Result<(), NativeAxError>,
        R: Fn(ElementId) -> Result<(), NativeAxError>,
    >(self, secure_input: bool, read_field: F, add_native: A, remove_native: R) -> bool {
        self.focused matches Some(current) ==> {
            &&& call_requires(read_field, (current.element, secure_input))
            &&& forall|field: ValueFieldSnapshot| #[trigger]
                call_ensures(read_field, (current.element, secure_input), field)
                    ==> element_step_ready(
                    self.step(ObserverModel::registration_class(field)),
                    current.element,
                    add_native,
                    remove_native,
                )
        }
    }

    /// Whether the calls of a focus change can be made, and those that clear the
    /// focus where it fails.
    pub open spec fn focus_or_clear_ready<
        F: FnOnce(ElementId, bool) -> ValueFieldSnapshot,
        S: FnOnce(ElementId, bool) -> Result<Option<FocusedElementSnapshot>, NativeAxError>,
        V: FnOnce(ElementId, bool, bool) -> ValueSnapshot,
        A: Fn(ElementId) -> Result<(), NativeAxError>,
        R: Fn(ElementId) -> Result<(), NativeAxError>,
    >(
        self,
        target: Result<Option<ElementId>, NativeAxError>,
        policy: CapturePolicy,
        secure_input: bool,
        read_field: F,
        read_snapshot: S,
        read_value: V,
        add_native: A,
        remove_native: R,
    ) -> bool {
        &&& self.focus_ready(
            target,
            policy,
            secure_input,
            read_field,
            read_snapshot,
            read_value,
            add_native,
            remove_native,
        )
        &&& !(target matches Ok(target) && self.same_target(target)) ==> self.release_ready(
            remove_native,
        )
    }
}

impl AppObserver {
    /// Whether the focus is still on the same element, or still on none.
    pub fn same_value_target(&self, target: Option<ElementId>) -> (same: bool)
        ensures
            same == self@.same_target(target),
    {
        match (self.focused_target.current(), target) {
            (Some(current), Some(element)) => current.element == element,
            (None, None) => true,
            _ => false,
        }
    }

    /// Prepares the target of a newly focused element. One that delivers its
    /// value is registered first; where that fails there is no target.
    pub fn prepare_focused_target<A: Fn(ElementId) -> Result<(), NativeAxError>>(
        &mut self,
        target: Option<ElementId>,
        snapshot: Option<FocusedElementSnapshot>,
        policy: &CapturePolicy,
        add_native: &A,
    ) -> (prepared: Result<Option<RegisteredFocusedTarget>, NativeAxError>)
        requires
            old(self).wf(),
            old(self)@.registers(target, snapshot) ==> call_requires(*add_native, (target->0,)),
        ensures
            final(self).wf(),
            exists|added: Result<(), NativeAxError>|
                {
                    &&& old(self)@.registers(target, snapshot) ==> call_ensures(
                        *add_native,
                        (target->0,),
                        added,
                    )
                    &&& final(self)@ == #[trigger] old(self)@.added(target, snapshot, added)
                    &&& match prepared {
                        Err(error) => old(self)@.refused(target, snapshot, added) && added == Err::<
                            (),
                            NativeAxError,
                        >(error),
                        Ok(prepared) => {
                            &&& !old(self)@.refused(target, snapshot, added)
                            &&& observer::target_view(prepared) == old(self)@.prepared(
                                target,
                                snapshot,
                                *policy,
                            )
                            &&& prepared matches Some(ready) ==> ready.context@.capture.wf()
                        },
                    }
                },
    {
        let ghost before = self@;
        let ghost given = snapshot;
        let ghost mut added: Result<(), NativeAxError> = Ok(());
        let generation = self.focused_target.next_generation();
        let (element, snapshot) = match (target, snapshot) {
            (Some(element), Some(snapshot)) => (element, snapshot),
            _ => {
                assert(self@ == before.added(target, given, added));
                return Ok(None);
            },
        };
        let class = field_class(
            as_text(&snapshot.element.role),
            as_text(&snapshot.element.subrole),
        );
        if value_notification_eligible(class) && !self.notifications.accepts_delivery(
            element,
            VALUE_CHANGED,
        ) {
            let outcome = add_native(element);
            proof {
                added = outcome;
            }
            if let Err(error) = self.notifications.record_add(element, VALUE_CHANGED, outcome) {
                assert(self@ == before.added(target, given, added));
                return match error {
                    RegistrationError::Register(error) => Err(error),
                    RegistrationError::Unregister(error) => Err(error),
                };
            }
        }
        assert(self@ == before.added(target, given, added));
        let enabled = self.text_content_allowed(policy, &snapshot.window);
        let context = FocusedValueContext::new(
            snapshot.window,
            snapshot.element,
            enabled,
            snapshot.text_baseline,
            generation,
            snapshot.field_class,
        );
        Ok(Some(RegisteredFocusedTarget { element, context }))
    }

    /// Lets a previous target go: its registration is taken back, and its value
    /// is kept for later where it is deferred.
    pub fn remove_focused_target<R: Fn(ElementId) -> Result<(), NativeAxError>>(
        &mut self,
        target: Option<RegisteredFocusedTarget>,
        defer_context: bool,
        remove_native: &R,
    )
        requires
            old(self).wf(),
            target matches Some(target) ==> target.context@.capture.wf() && (
            old(self)@.registry.contains_key(observer::value_key(target.element))
                ==> call_requires(*remove_native, (target.element,))),
        ensures
            final(self).wf(),
            exists|removed: Result<(), NativeAxError>|
                {
                    &&& target matches Some(previous) ==> (old(self)@.registry.contains_key(
                        observer::value_key(previous.element),
                    ) ==> call_ensures(*remove_native, (previous.element,), removed))
                    &&& final(self)@ == #[trigger] old(self)@.released(
                        observer::target_view(target),
                        defer_context,
                        removed,
                    )
                },
    {
        let ghost before = self@;
        let ghost previous = observer::target_view(target);
        let ghost unasked: Result<(), NativeAxError> = Ok(());
        match target {
            None => {
                assert(self@ == before.released(previous, defer_context, unasked));
            },
            Some(target) => {
                let ghost context = target.context@;
                let ghost element = target.element;
                self.unregister_target(target.element, VALUE_CHANGED, remove_native);
                let ghost freed = self@;
                let ghost removed = choose|removed: Result<(), NativeAxError>|
                    {
                        &&& before.registry.contains_key(observer::value_key(element))
                            ==> call_ensures(*remove_native, (element,), removed)
                        &&& freed == #[trigger] before.unregistered(
                            observer::value_key(element),
                            removed,
                        )
                    };
                if defer_context {
                    self.retired_contexts.push(target.context);
                    assert(self@.retired =~= freed.retired.push(context));
                }
                assert(self@ == before.released(previous, defer_context, removed));
            },
        }
    }

    /// Installs a prepared target.
    pub fn commit_focused_target<R: Fn(ElementId) -> Result<(), NativeAxError>>(
        &mut self,
        registered: Option<RegisteredFocusedTarget>,
        defer_previous: bool,
        remove_native: &R,
    )
        requires
            old(self).wf(),
            registered matches Some(target) ==> target.context@.capture.wf(),
            old(self)@.release_ready(*remove_native),
        ensures
            final(self).wf(),
            exists|removed: Result<(), NativeAxError>|
                {
                    &&& old(self)@.focused matches Some(previous) ==> (
                    old(self)@.registry.contains_key(observer::value_key(previous.element))
                        ==> call_ensures(*remove_native, (previous.element,), removed))
                    &&& final(self)@ == #[trigger] old(self)@.committed(
                        observer::target_view(registered),
                        defer_previous,
                        removed,
                    )
                },
    {
        let ghost before = self@;
        let ghost installed = observer::target_view(registered);
        let outcome = self.focused_target.transition::<NativeAxError>(Ok(registered));
        let previous = match outcome {
            Ok(previous) => previous,
            Err((previous, _)) => previous,
        };
        let ghost moved = self@;
        self.remove_focused_target(previous, defer_previous, remove_native);
        proof {
            let removed = choose|removed: Result<(), NativeAxError>|
                {
                    &&& previous matches Some(target) ==> (moved.registry.contains_key(
                        observer::value_key(target.element),
                    ) ==> call_ensures(*remove_native, (target.element,), removed))
                    &&& self@ == #[trigger] moved.released(
                        observer::target_view(previous),
                        defer_previous,
                        removed,
                    )
                };
            assert(self@ == before.committed(installed, defer_previous, removed));
        }
    }

    /// Resolves the value of the focused element when the focus moves on.
    pub fn resolve_focus_change<V: FnOnce(ElementId, bool, bool) -> ValueSnapshot>(
        &mut self,
        moment: FocusMoment,
        policy: &CapturePolicy,
        authorizations: &mut InputAuthorizations,
        read_value: V,
    ) -> (resolution: FocusChangeResolution)
        requires
            old(self).wf(),
            old(authorizations)@.wf(),
            old(self)@.delivering() ==> call_requires(
                read_value,
                (
                    (old(self)@.focused->0).element,
                    old(self)@.allowed(*policy, (old(self)@.focused->0).context.window),
                    moment.secure_input,
                ),
            ),
        ensures
            final(self).wf(),
            final(authorizations)@.wf(),
            exists|value: ValueSnapshot|
                {
                    &&& old(self)@.delivering() ==> call_ensures(
                        read_value,
                        (
                            (old(self)@.focused->0).element,
                            old(self)@.allowed(*policy, (old(self)@.focused->0).context.window),
                            moment.secure_input,
                        ),
                        value,
                    )
                    &&& (final(self)@, final(authorizations)@, resolution)
                        == #[trigger] old(self)@.left(
                        value,
                        *policy,
                        moment,
                        old(authorizations)@,
                    )
                },
    {
        let ghost before = self@;
        let ghost ledger = authorizations@;
        let (element, window, delivering) = match self.focused_target.current() {
            None => {
                let ghost unread: ValueSnapshot = vstd::pervasive::arbitrary();
                assert((self@, authorizations@, FocusChangeResolution::Immediate(None))
                    == before.left(unread, *policy, moment, ledger));
                return FocusChangeResolution::Immediate(None);
            },
            Some(target) => (
                target.element,
                copy_window(&target.context.window),
                self.notifications.accepts_delivery(target.element, VALUE_CHANGED),
            ),
        };
        if !delivering {
            let ghost unread: ValueSnapshot = vstd::pervasive::arbitrary();
            assert((self@, authorizations@, FocusChangeResolution::Immediate(None)) == before.left(
                unread,
                *policy,
                moment,
                ledger,
            ));
            return FocusChangeResolution::Immediate(None);
        }
        let decision = self.text_content_decision(policy, &window);
        let allowed = match &decision {
            Some(decision) => decision.is_allowed(),
            None => false,
        };
        let snapshot = read_value(element, allowed, moment.secure_input);
        let ghost value = snapshot;
        let pid = self.pid;
        if snapshot.failure.is_some() {
            self.record_degraded();
        }
        let resolution = match self.focused_target.current_mut() {
            None => FocusChangeResolution::Immediate(None),
            Some(target) => {
                let resolved = if snapshot.failure.is_some() {
                    target.context.capture.resolve_unreadable_focus_change(authorizations)
                } else {
                    let observation = target.context.observation(
                        pid,
                        moment.notification_at,
                        moment.observed_at,
                        snapshot,
                        decision,
                    );
                    target.context.capture.resolve_focus_change(observation, authorizations)
                };
                match resolved {
                    FocusChangeCapture::Emit(Some(emission)) => FocusChangeResolution::Immediate(
                        Some(target.context.value_event(pid, emission)),
                    ),
                    FocusChangeCapture::Emit(None) => FocusChangeResolution::Immediate(None),
                    FocusChangeCapture::Defer => FocusChangeResolution::Deferred,
                }
            },
        };
        assert((self@, authorizations@, resolution) == before.left(
            value,
            *policy,
            moment,
            ledger,
        ));
        resolution
    }

    /// Classifies the focused element anew, with calls that are made only where
    /// the registration has to change.
    pub fn refresh_current_field_class_with<
        A: FnOnce() -> Result<(), NativeAxError>,
        R: FnOnce() -> Result<(), NativeAxError>,
    >(
        &mut self,
        snapshot: ValueFieldSnapshot,
        authorizations: &mut InputAuthorizations,
        register: A,
        unregister: R,
    ) -> (result: Result<(), RegistrationError>)
        requires
            old(self).wf(),
            old(authorizations)@.wf(),
            registration::step_ready(
                old(self)@.step(ObserverModel::registration_class(snapshot)),
                register,
                unregister,
            ),
        ensures
            final(self).wf(),
            final(authorizations)@.wf(),
            exists|outcome: Result<(), NativeAxError>|
                {
                    &&& registration::step_called(
                        old(self)@.step(ObserverModel::registration_class(snapshot)),
                        register,
                        unregister,
                        outcome,
                    )
                    &&& (final(self)@, final(authorizations)@, result)
                        == #[trigger] old(self)@.refreshed(
                        snapshot,
                        outcome,
                        old(authorizations)@,
                    )
                },
    {
        let step = self.refresh_step(&snapshot);
        let outcome = registration::call_step(step, register, unregister);
        self.apply_refresh(snapshot, outcome, authorizations)
    }

    fn refresh_step(&self, snapshot: &ValueFieldSnapshot) -> (step: RegistrationStep)
        requires
            self.wf(),
        ensures
            step == self@.step(ObserverModel::registration_class(*snapshot)),
    {
        if snapshot.failure.is_some() {
            return RegistrationStep::Keep;
        }
        match (self.focused_target.current(), snapshot.registration_class) {
            (Some(target), Some(class)) => self.notifications.step(
                target.element,
                VALUE_CHANGED,
                class,
            ),
            _ => RegistrationStep::Keep,
        }
    }

    fn apply_refresh(
        &mut self,
        snapshot: ValueFieldSnapshot,
        outcome: Result<(), NativeAxError>,
        authorizations: &mut InputAuthorizations,
    ) -> (result: Result<(), RegistrationError>)
        requires
            old(self).wf(),
            old(authorizations)@.wf(),
        ensures
            final(self).wf(),
            final(authorizations)@.wf(),
            (final(self)@, final(authorizations)@, result) == old(self)@.refreshed(
                snapshot,
                outcome,
                old(authorizations)@,
            ),
    {
        let ghost before = self@;
        let ghost ledger = authorizations@;
        let ghost given = snapshot;
        let step = self.refresh_step(&snapshot);
        let snapshot = match classified_field_snapshot(snapshot) {
            None => {
                return Ok(());
            },
            Some(snapshot) => snapshot,
        };
        let element = match self.focused_target.current() {
            None => {
                return Ok(());
            },
            Some(target) => target.element,
        };
        let result = self.notifications.record_step(element, VALUE_CHANGED, step, outcome);
        assert(self@ == before.stepped(step, outcome));
        if matches!(result, Err(RegistrationError::Register(_))) {
            return result;
        }
        let pid = self.pid;
        let class = snapshot.field_class;
        match self.focused_target.current_mut() {
            None => {},
            Some(target) => {
                target.context.element.role = snapshot.role;
                target.context.element.subrole = snapshot.subrole;
                target.context.field_class = class;
                if !matches!(class, FieldClass::KnownSafeNonText) {
                    target.context.element.value = None;
                    target.context.element.value_len = None;
                    target.context.element.capture_decision = None;
                }
                let generation: u64 = target.context.generation;
                target.context.capture.transition_class(pid, generation, class, authorizations);
            },
        }
        assert((self@, authorizations@, result) == before.refreshed(given, outcome, ledger));
        result
    }

    /// Classifies the focused element anew; tells whether its class changed.
    pub fn refresh_current_field_class<
        F: FnOnce(ElementId, bool) -> ValueFieldSnapshot,
        A: Fn(ElementId) -> Result<(), NativeAxError>,
        R: Fn(ElementId) -> Result<(), NativeAxError>,
    >(
        &mut self,
        secure_input: bool,
        authorizations: &mut InputAuthorizations,
        read_field: F,
        add_native: &A,
        remove_native: &R,
    ) -> (changed: bool)
        requires
            old(self).wf(),
            old(authorizations)@.wf(),
            old(self)@.class_ready(secure_input, read_field, *add_native, *remove_native),
        ensures
            final(self).wf(),
            final(authorizations)@.wf(),
            exists|field: ValueFieldSnapshot, outcome: Result<(), NativeAxError>|
                {
                    &&& old(self)@.focused matches Some(target) ==> call_ensures(
                        read_field,
                        (target.element, secure_input),
                        field,
                    ) && element_step_called(
                        old(self)@.step(ObserverModel::registration_class(field)),
                        target.element,
                        *add_native,
                        *remove_native,
                        outcome,
                    )
                    &&& (final(self)@, final(authorizations)@)
                        == #[trigger] old(self)@.refreshed_counted(
                        field,
                        outcome,
                        old(authorizations)@,
                    )
                },
            changed == (old(self)@.focused matches Some(target) && target.context.field_class != (
            final(self)@.focused->0).context.field_class),
    {
        let ghost before = self@;
        let ghost ledger = authorizations@;
        let (element, previous_class) = match self.focused_target.current() {
            None => {
                let ghost unread: ValueFieldSnapshot = vstd::pervasive::arbitrary();
                let ghost unasked: Result<(), NativeAxError> = Ok(());
                assert((self@, authorizations@) == before.refreshed_counted(
                    unread,
                    unasked,
                    ledger,
                ));
                return false;
            },
            Some(target) => (target.element, target.context.field_class),
        };
        let snapshot = read_field(element, secure_input);
        let ghost field = snapshot;
        if snapshot.failure.is_some() {
            self.record_degraded();
        }
        let step = self.refresh_step(&snapshot);
        let outcome = call_element_step(step, element, add_native, remove_native);
        let ghost called = outcome;
        let result = self.apply_refresh(snapshot, outcome, authorizations);
        if result.is_err() {
            self.record_degraded();
        }
        assert((self@, authorizations@) == before.refreshed_counted(field, called, ledger));
        match self.focused_target.current() {
            None => false,
            Some(target) => previous_class != target.context.field_class,
        }
    }

    /// Handles a focus that may have changed. On the same element only its class
    /// is read; otherwise the next target is prepared before the previous value
    /// is resolved, and the focus is reported either way.
    pub fn focused_element_events<
        F: FnOnce(ElementId, bool) -> ValueFieldSnapshot,
        S: FnOnce(ElementId, bool) -> Result<Option<FocusedElementSnapshot>, NativeAxError>,
        V: FnOnce(ElementId, bool, bool) -> ValueSnapshot,
        A: Fn(ElementId) -> Result<(), NativeAxError>,
        R: Fn(ElementId) -> Result<(), NativeAxError>,
    >(
        &mut self,
        target: Result<Option<ElementId>, NativeAxError>,
        moment: FocusMoment,
        policy: &CapturePolicy,
        authorizations: &mut InputAuthorizations,
        read_field: F,
        read_snapshot: S,
        read_value: V,
        add_native: &A,
        remove_native: &R,
    ) -> (events: Result<Vec<NativeAxEvent>, NativeAxError>)
        requires
            old(self).wf(),
            old(authorizations)@.wf(),
            old(self)@.focus_ready(
                target,
                *policy,
                moment.secure_input,
                read_field,
                read_snapshot,
                read_value,
                *add_native,
                *remove_native,
            ),
        ensures
            final(self).wf(),
            final(authorizations)@.wf(),
            exists|outcomes: FocusOutcomes|
                {
                    &&& #[trigger] outcomes.called(
                        old(self)@,
                        target,
                        *policy,
                        moment.secure_input,
                        read_field,
                        read_snapshot,
                        read_value,
                        *add_native,
                        *remove_native,
                    )
                    &&& outcomes.released(old(self)@, target, events is Ok, *remove_native)
                    &&& (final(self)@, final(authorizations)@, events_view(events))
                        == old(self)@.focused_events(
                        target,
                        outcomes,
                        *policy,
                        moment,
                        old(authorizations)@,
                    )
                },
    {
        let ghost before = self@;
        let ghost ledger = authorizations@;
        let ghost read = target;
        let ghost mut outcomes = FocusOutcomes {
            field: vstd::pervasive::arbitrary(),
            registered: Ok(()),
            snapshot: Ok(None),
            added: Ok(()),
            value: vstd::pervasive::arbitrary(),
            removed: Ok(()),
        };
        let target = match target {
            Err(error) => {
                assert(outcomes.called(
                    before,
                    read,
                    *policy,
                    moment.secure_input,
                    read_field,
                    read_snapshot,
                    read_value,
                    *add_native,
                    *remove_native,
                ));
                return Err(error);
            },
            Ok(target) => target,
        };
        if self.same_value_target(target) {
            self.refresh_current_field_class(
                moment.secure_input,
                authorizations,
                read_field,
                add_native,
                remove_native,
            );
            proof {
                let (field, outcome) = choose|
                    field: ValueFieldSnapshot,
                    outcome: Result<(), NativeAxError>,
                |
                    {
                        &&& before.focused matches Some(target) ==> call_ensures(
                            read_field,
                            (target.element, moment.secure_input),
                            field,
                        ) && element_step_called(
                            before.step(ObserverModel::registration_class(field)),
                            target.element,
                            *add_native,
                            *remove_native,
                            outcome,
                        )
                        &&& (self@, authorizations@) == #[trigger] before.refreshed_counted(
                            field,
                            outcome,
                            ledger,
                        )
                    };
                outcomes.field = field;
                outcomes.registered = outcome;
                assert(outcomes.called(
                    before,
                    read,
                    *policy,
                    moment.secure_input,
                    read_field,
                    read_snapshot,
                    read_value,
                    *add_native,
                    *remove_native,
                ));
            }
            let mut events: Vec<NativeAxEvent> = Vec::new();
            events.push(self.focus_event(moment.observed_at));
            assert(events@ =~= seq![self@.focus_event(moment.observed_at)]);
            return Ok(events);
        }
        let snapshot = match target {
            Some(element) => read_snapshot(element, moment.secure_input),
            None => Ok(None),
        };
        proof {
            outcomes.snapshot = snapshot;
            assert(snapshot_read(target, moment.secure_input, read_snapshot, snapshot));
        }
        let snapshot = match snapshot {
            Err(error) => {
                assert(outcomes.called(
                    before,
                    read,
                    *policy,
                    moment.secure_input,
                    read_field,
                    read_snapshot,
                    read_value,
                    *add_native,
                    *remove_native,
                ));
                return Err(error);
            },
            Ok(snapshot) => snapshot,
        };
        let ghost found = snapshot;
        let prepared = self.prepare_focused_target(target, snapshot, policy, add_native);
        proof {
            let added = choose|added: Result<(), NativeAxError>|
                {
                    &&& before.registers(target, found) ==> call_ensures(
                        *add_native,
                        (target->0,),
                        added,
                    )
                    &&& self@ == #[trigger] before.added(target, found, added)
                    &&& match prepared {
                        Err(error) => before.refused(target, found, added) && added == Err::<
                            (),
                            NativeAxError,
                        >(error),
                        Ok(prepared) => {
                            &&& !before.refused(target, found, added)
                            &&& observer::target_view(prepared) == before.prepared(
                                target,
                                found,
                                *policy,
                            )
                            &&& prepared matches Some(ready) ==> ready.context@.capture.wf()
                        },
                    }
                };
            outcomes.added = added;
        }
        let prepared = match prepared {
            Err(error) => {
                assert(outcomes.called(
                    before,
                    read,
                    *policy,
                    moment.secure_input,
                    read_field,
                    read_snapshot,
                    read_value,
                    *add_native,
                    *remove_native,
                ));
                return Err(error);
            },
            Ok(prepared) => prepared,
        };
        assert(before.moves_by(
            target,
            moment.secure_input,
            read_snapshot,
            *add_native,
            outcomes.snapshot,
            outcomes.added,
        ));
        let ghost ready = observer::target_view(prepared);
        let ghost registered = self@;
        let resolution = self.resolve_focus_change(moment, policy, authorizations, read_value);
        let ghost resolved = self@;
        let ghost resolved_ledger = authorizations@;
        let ghost outcome = resolution;
        proof {
            let value = choose|value: ValueSnapshot|
                {
                    &&& registered.delivering() ==> call_ensures(
                        read_value,
                        (
                            (registered.focused->0).element,
                            registered.allowed(*policy, (registered.focused->0).context.window),
                            moment.secure_input,
                        ),
                        value,
                    )
                    &&& (resolved, resolved_ledger, outcome) == #[trigger] registered.left(
                        value,
                        *policy,
                        moment,
                        ledger,
                    )
                };
            outcomes.value = value;
        }
        let (event, defer_previous) = resolution.into_parts();
        let ghost sent = event;
        let mut events: Vec<NativeAxEvent> = Vec::new();
        if let Some(event) = event {
            events.push(event);
        }
        let ghost first = events@;
        self.commit_focused_target(prepared, defer_previous, remove_native);
        proof {
            let removed = choose|removed: Result<(), NativeAxError>|
                {
                    &&& resolved.focused matches Some(previous) ==> (
                    resolved.registry.contains_key(observer::value_key(previous.element))
                        ==> call_ensures(*remove_native, (previous.element,), removed))
                    &&& self@ == #[trigger] resolved.committed(ready, defer_previous, removed)
                };
            outcomes.removed = removed;
            assert(outcomes.called(
                before,
                read,
                *policy,
                moment.secure_input,
                read_field,
                read_snapshot,
                read_value,
                *add_native,
                *remove_native,
            ));
        }
        events.push(self.focus_event(moment.observed_at));
        proof {
            let expected = match sent {
                Some(event) => seq![event],
                None => Seq::<NativeAxEvent>::empty(),
            };
            assert(first =~= expected);
        }
        Ok(events)
    }
}

impl AppObserver {
    /// Handles a focus that may have changed; where that fails, the failure is
    /// counted, the previous value is deferred and no element is focused.
    pub fn focused_element_or_clear<
        F: FnOnce(ElementId, bool) -> ValueFieldSnapshot,
        S: FnOnce(ElementId, bool) -> Result<Option<FocusedElementSnapshot>, NativeAxError>,
        V: FnOnce(ElementId, bool, bool) -> ValueSnapshot,
        A: Fn(ElementId) -> Result<(), NativeAxError>,
        R: Fn(ElementId) -> Result<(), NativeAxError>,
    >(
        &mut self,
        target: Result<Option<ElementId>, NativeAxError>,
        moment: FocusMoment,
        policy: &CapturePolicy,
        authorizations: &mut InputAuthorizations,
        read_field: F,
        read_snapshot: S,
        read_value: V,
        add_native: &A,
        remove_native: &R,
    ) -> (events: Vec<NativeAxEvent>)
        requires
            old(self).wf(),
            old(authorizations)@.wf(),
            old(self)@.focus_or_clear_ready(
                target,
                *policy,
                moment.secure_input,
                read_field,
                read_snapshot,
                read_value,
                *add_native,
                *remove_native,
            ),
        ensures
            final(self).wf(),
            final(authorizations)@.wf(),
            exists|outcomes: FocusOutcomes|
                {
                    &&& #[trigger] outcomes.called(
                        old(self)@,
                        target,
                        *policy,
                        moment.secure_input,
                        read_field,
                        read_snapshot,
                        read_value,
                        *add_native,
                        *remove_native,
                    )
                    &&& outcomes.released_or_cleared(
                        old(self)@,
                        target,
                        *policy,
                        moment,
                        old(authorizations)@,
                        *remove_native,
                    )
                    &&& (final(self)@, final(authorizations)@, events@)
                        == old(self)@.focused_or_cleared(
                        target,
                        outcomes,
                        *policy,
                        moment,
                        old(authorizations)@,
                    )
                },
    {
        let ghost before = self@;
        let ghost ledger = authorizations@;
        let handled = self.focused_element_events(
            target,
            moment,
            policy,
            authorizations,
            read_field,
            read_snapshot,
            read_value,
            add_native,
            remove_native,
        );
        let ghost after = self@;
        let ghost mut outcomes = choose|outcomes: FocusOutcomes|
            {
                &&& #[trigger] outcomes.called(
                    before,
                    target,
                    *policy,
                    moment.secure_input,
                    read_field,
                    read_snapshot,
                    read_value,
                    *add_native,
                    *remove_native,
                )
                &&& outcomes.released(before, target, handled is Ok, *remove_native)
                &&& (after, authorizations@, events_view(handled)) == before.focused_events(
                    target,
                    outcomes,
                    *policy,
                    moment,
                    ledger,
                )
            };
        match handled {
            Ok(events) => events,
            Err(_) => {
                self.record_degraded();
                let ghost counted = self@;
                self.commit_focused_target(None, true, remove_native);
                proof {
                    let removed = choose|removed: Result<(), NativeAxError>|
                        {
                            &&& counted.focused matches Some(previous) ==> (
                            counted.registry.contains_key(observer::value_key(previous.element))
                                ==> call_ensures(*remove_native, (previous.element,), removed))
                            &&& self@ == #[trigger] counted.committed(None, true, removed)
                        };
                    let answered = outcomes;
                    outcomes.removed = removed;
                    assert(outcomes.called(
                        before,
                        target,
                        *policy,
                        moment.secure_input,
                        read_field,
                        read_snapshot,
                        read_value,
                        *add_native,
                        *remove_native,
                    ));
                    assert(before.focused_events(target, outcomes, *policy, moment, ledger)
                        == before.focused_events(target, answered, *policy, moment, ledger));
                }
                let mut events: Vec<NativeAxEvent> = Vec::new();
                events.push(self.focus_event(moment.observed_at));
                assert(events@ =~= seq![self@.focus_event(moment.observed_at)]);
                events
            },
        }
    }

    /// Reads the focus again once an attach is long enough ago. What it finds is
    /// reported as a focused field only.
    pub fn reconcile_accessibility_if_due<
        F: FnOnce(ElementId, bool) -> ValueFieldSnapshot,
        S: FnOnce(ElementId, bool) -> Result<Option<FocusedElementSnapshot>, NativeAxError>,
        V: FnOnce(ElementId, bool, bool) -> ValueSnapshot,
        T: FnOnce() -> Result<Option<ElementId>, NativeAxError>,
        A: Fn(ElementId) -> Result<(), NativeAxError>,
        R: Fn(ElementId) -> Result<(), NativeAxError>,
    >(
        &mut self,
        moment: FocusMoment,
        policy: &CapturePolicy,
        authorizations: &mut InputAuthorizations,
        read_target: T,
        read_field: F,
        read_snapshot: S,
        read_value: V,
        add_native: &A,
        remove_native: &R,
    ) -> (observations: Vec<NativeAxObservation>)
        requires
            old(self).wf(),
            old(authorizations)@.wf(),
            old(self)@.activation.is_due(moment.notification_at) ==> call_requires(
                read_target,
                (),
            ),
            old(self)@.activation.is_due(moment.notification_at) ==> forall|
                target: Result<Option<ElementId>, NativeAxError>,
            | #[trigger]
                call_ensures(read_target, (), target) ==> old(self)@.activation_used().focus_or_clear_ready(
                    target,
                    *policy,
                    moment.secure_input,
                    read_field,
                    read_snapshot,
                    read_value,
                    *add_native,
                    *remove_native,
                ),
        ensures
            final(self).wf(),
            final(authorizations)@.wf(),
            !old(self)@.activation.is_due(moment.notification_at) ==> {
                &&& observations@.len() == 0
                &&& final(self)@ == old(self)@
                &&& final(authorizations)@ == old(authorizations)@
            },
            old(self)@.activation.is_due(moment.notification_at) ==> exists|
                target: Result<Option<ElementId>, NativeAxError>,
                outcomes: FocusOutcomes,
            |
                {
                    &&& #[trigger] call_ensures(read_target, (), target)
                    &&& #[trigger] outcomes.called(
                        old(self)@.activation_used(),
                        target,
                        *policy,
                        moment.secure_input,
                        read_field,
                        read_snapshot,
                        read_value,
                        *add_native,
                        *remove_native,
                    )
                    &&& outcomes.released_or_cleared(
                        old(self)@.activation_used(),
                        target,
                        *policy,
                        moment,
                        old(authorizations)@,
                        *remove_native,
                    )
                    &&& ({
                        let (after, ledger, events) =
                            old(self)@.activation_used().focused_or_cleared(
                            target,
                            outcomes,
                            *policy,
                            moment,
                            old(authorizations)@,
                        );
                        &&& final(self)@ == after
                        &&& final(authorizations)@ == ledger
                        &&& observations@ == internalized(events)
                    })
                },
    {
        if !self.accessibility_activation.take_due(moment.notification_at) {
            return Vec::new();
        }
        let ghost used = self@;
        assert(used == old(self)@.activation_used());
        let target = read_target();
        let ghost read = target;
        let events = self.focused_element_or_clear(
            target,
            moment,
            policy,
            authorizations,
            read_field,
            read_snapshot,
            read_value,
            add_native,
            remove_native,
        );
        let ghost all = events@;
        let mut waiting = events;
        let mut observations: Vec<NativeAxObservation> = Vec::new();
        let ghost mut taken: nat = 0;
        assert(waiting@ =~= all.skip(0));
        assert(observations@ =~= internalized(all.take(0)));
        while waiting.len() > 0
            invariant
                taken <= all.len(),
                waiting@ == all.skip(taken as int),
                observations@ == internalized(all.take(taken as int)),
            decreases waiting.len(),
        {
            let event = waiting.remove(0);
            assert(event == all[taken as int]);
            observations.push(event.internalize_focus());
            proof {
                taken = taken + 1;
                assert(waiting@ =~= all.skip(taken as int));
                assert(observations@ =~= internalized(all.take(taken as int)));
            }
        }
        assert(all.take(taken as int) =~= all);
        observations
    }
}

/// Events as observations; a focus becomes a focused field.
pub open spec fn internalized(events: Seq<NativeAxEvent>) -> Seq<NativeAxObservation> {
    events.map_values(|event: NativeAxEvent| event.spec_internalized())
}

impl ObserverModel {
    /// The observer once its planned reading was taken.
    pub open spec fn activation_used(self) -> ObserverModel {
        ObserverModel {
            activation: super::accessibility::AccessibilityActivation {
                focused_reconcile_at: None,
            },
            ..self
        }
    }
}

/// The events of a result.
pub open spec fn events_view(events: Result<Vec<NativeAxEvent>, NativeAxError>) -> Result<
    Seq<NativeAxEvent>,
    NativeAxError,
> {
    match events {
        Ok(events) => Ok(events@),
        Err(error) => Err(error),
    }
}

impl FocusOutcomes {
    /// Whether the registration of the previous element was taken back where a
    /// focus moved on.
    pub open spec fn released<R: Fn(ElementId) -> Result<(), NativeAxError>>(
        self,
        before: ObserverModel,
        target: Result<Option<ElementId>, NativeAxError>,
        succeeded: bool,
        remove_native: R,
    ) -> bool {
        target is Ok && !before.same_target(target->Ok_0) && succeeded ==> (
        before.focused matches Some(previous) ==> (before.added(
            target->Ok_0,
            self.snapshot->Ok_0,
            self.added,
        ).registry.contains_key(observer::value_key(previous.element)) ==> call_ensures(
            remove_native,
            (previous.element,),
            self.removed,
        )))
    }

    /// Whether the registration of the previous element was taken back, where
    /// the focus moved on or was cleared.
    pub open spec fn released_or_cleared<R: Fn(ElementId) -> Result<(), NativeAxError>>(
        self,
        before: ObserverModel,
        target: Result<Option<ElementId>, NativeAxError>,
        policy: CapturePolicy,
        moment: FocusMoment,
        ledger: LedgerModel,
        remove_native: R,
    ) -> bool {
        let (after, _, events) = before.focused_events(target, self, policy, moment, ledger);
        if events is Ok {
            self.released(before, target, true, remove_native)
        } else {
            before.focused matches Some(previous) ==> (after.registry.contains_key(
                observer::value_key(previous.element),
            ) ==> call_ensures(remove_native, (previous.element,), self.removed))
        }
    }
}

/// A focus that cannot be read leaves no focused element, moves the generation
/// on, counts a failure and keeps the value that was held.
pub proof fn law_unreadable_focus_keeps_the_value(
    observer: ObserverModel,
    error: NativeAxError,
    outcomes: FocusOutcomes,
    policy: CapturePolicy,
    moment: FocusMoment,
    ledger: LedgerModel,
)
    ensures
        ({
            let (after, ledger_after, events) = observer.focused_or_cleared(
                Err(error),
                outcomes,
                policy,
                moment,
                ledger,
            );
            &&& after.focused is None
            &&& after.generation == crate::text_capture::focused_target::next_of(
                observer.generation,
            )
            &&& ledger_after == ledger
            &&& events.len() == 1
            &&& observer.focused matches Some(target) ==> after.retired == observer.retired.push(
                target.context,
            )
        }),
{
}

/// An element that cannot be registered never becomes the focused target, and
/// the previous value is not touched.
pub proof fn law_failed_preparation_keeps_the_target(
    observer: ObserverModel,
    target: Option<ElementId>,
    outcomes: FocusOutcomes,
    policy: CapturePolicy,
    moment: FocusMoment,
    ledger: LedgerModel,
)
    requires
        !observer.same_target(target),
        outcomes.snapshot matches Ok(snapshot) && observer.refused(
            target,
            snapshot,
            outcomes.added,
        ),
    ensures
        ({
            let (after, ledger_after, events) = observer.focused_events(
                Ok(target),
                outcomes,
                policy,
                moment,
                ledger,
            );
            &&& events is Err
            &&& after.focused == observer.focused
            &&& after.generation == observer.generation
            &&& ledger_after == ledger
        }),
{
}

/// The focus stays where it was exactly on the same element, or on none as before.
pub proof fn law_focus_stays_on_its_element(
    observer: AppObserver,
    target: Option<ElementId>,
    same: bool,
)
    requires
        call_ensures(AppObserver::same_value_target, (&observer, target), same),
    ensures
        same <==> (observer@.focused is None && target is None) || (observer@.focused is Some
            && target is Some && observer@.focused->0.element == target->0),
{
}

/// A prepared target is the element with its first reading, for the next generation and with nothing held.
/// An element that delivers its value is registered first; where that fails there is no target, and nothing
/// of the observer changes.
pub proof fn law_prepared_targets_are_registered<A: Fn(ElementId) -> Result<(), NativeAxError>>(
    call: Subject<AppObserver>,
    target: Option<ElementId>,
    snapshot: Option<FocusedElementSnapshot>,
    policy: &CapturePolicy,
    add_native: &A,
    prepared: Result<Option<RegisteredFocusedTarget>, NativeAxError>,
)
    requires
        call.on.wf(),
        call_ensures(
            AppObserver::prepare_focused_target::<A>,
            (call.on, target, snapshot, policy, add_native),
            prepared,
        ),
        call.on@.generation < u64::MAX,
    ensures
        prepared is Ok ==> (prepared->Ok_0 is Some <==> target is Some && snapshot is Some),
        prepared is Ok && prepared->Ok_0 is Some ==> {
            let made = prepared->Ok_0->0;
            &&& made.element == target->0
            &&& made.context@.window == snapshot->0.window
            &&& made.context@.element == snapshot->0.element
            &&& made.context@.field_class == snapshot->0.field_class
            &&& made.context@.generation == old(call.on)@.generation + 1
            &&& made.context@.capture.pending is None
            &&& made.context@.capture.baseline == snapshot->0.text_baseline
            &&& made.context@.capture.enabled ==> old(call.on)@.enabled
            &&& !old(call.on)@.enabled ==> !made.context@.capture.enabled
        },
        prepared is Ok && prepared->Ok_0 is Some && (focused_field::class_of(
            text::text_view(snapshot->0.element.role),
            text::text_view(snapshot->0.element.subrole),
        ) is KnownText || focused_field::class_of(
            text::text_view(snapshot->0.element.role),
            text::text_view(snapshot->0.element.subrole),
        ) is KnownSafeNonText) ==> final(call.on)@.registry.contains_key(
            (target->0, "AXValueChanged"@),
        ) && final(call.on)@.registry[(target->0, "AXValueChanged"@)] is Active,
        prepared matches Err(error) ==> final(call.on)@ == old(call.on)@ && call_ensures(
            *add_native,
            (target->0,),
            Err::<(), NativeAxError>(error),
        ) && error.code != -25_209,
        target is None || snapshot is None || focused_field::class_of(
            text::text_view(snapshot->0.element.role),
            text::text_view(snapshot->0.element.subrole),
        ) is SecureText || focused_field::class_of(
            text::text_view(snapshot->0.element.role),
            text::text_view(snapshot->0.element.subrole),
        ) is Unknown ==> prepared is Ok && final(call.on)@ == old(call.on)@,
        final(call.on)@.focused == old(call.on)@.focused && final(call.on)@.generation
            == old(call.on)@.generation,
{
}

/// An installed target has the focus, in the next generation. The previous one does not deliver any more,
/// and its value is kept exactly where it is deferred.
pub proof fn law_installed_targets_have_the_focus<R: Fn(ElementId) -> Result<(), NativeAxError>>(
    call: Subject<AppObserver>,
    registered: Option<RegisteredFocusedTarget>,
    defer_previous: bool,
    remove_native: &R,
)
    requires
        call.on.wf(),
        call_ensures(
            AppObserver::commit_focused_target::<R>,
            (call.on, registered, defer_previous, remove_native),
            (),
        ),
        call.on@.generation < u64::MAX,
    ensures
        final(call.on)@.focused is Some <==> registered is Some,
        registered matches Some(target) ==> final(call.on)@.focused->0.element == target.element
            && final(call.on)@.focused->0.context == target.context@,
        final(call.on)@.generation == old(call.on)@.generation + 1,
        old(call.on)@.focused is Some ==> !(final(call.on)@.registry.contains_key(
            (old(call.on)@.focused->0.element, "AXValueChanged"@),
        ) && final(call.on)@.registry[(old(call.on)@.focused->0.element, "AXValueChanged"@)] is Active),
        old(call.on)@.focused is Some && defer_previous ==> final(call.on)@.retired
            == old(call.on)@.retired.push(old(call.on)@.focused->0.context),
        !(old(call.on)@.focused is Some && defer_previous) ==> final(call.on)@.retired == old(call.on)@.retired,
        final(call.on)@.degraded != old(call.on)@.degraded ==> old(call.on)@.focused is Some && exists|
            error: NativeAxError,
        | #[trigger]
            call_ensures(
                *remove_native,
                (old(call.on)@.focused->0.element,),
                Err::<(), NativeAxError>(error),
            ) && error.code != -25_210,
        old(call.on)@.focused is Some && old(call.on)@.registry.contains_key(
            (old(call.on)@.focused->0.element, "AXValueChanged"@),
        ) && old(call.on)@.degraded < u64::MAX ==> exists|removed: Result<(), NativeAxError>| #[trigger]
            call_ensures(*remove_native, (old(call.on)@.focused->0.element,), removed) && (
            final(call.on)@.degraded == old(call.on)@.degraded + 1 <==> (removed is Err
                && removed->Err_0.code != -25_210)),
        final(call.on)@.window_target == old(call.on)@.window_target,
{
    let before = call.on@;
    let removed = choose|removed: Result<(), NativeAxError>|
        {
            &&& before.focused matches Some(previous) ==> (before.registry.contains_key(
                observer::value_key(previous.element),
            ) ==> call_ensures(*remove_native, (previous.element,), removed))
            &&& final(call.on)@ == #[trigger] before.committed(
                observer::target_view(registered),
                defer_previous,
                removed,
            )
        };
    if let Err(error) = removed {
        assert(removed == Err::<(), NativeAxError>(error));
    }
}

/// The value of an element that loses the focus is read once more where its notification delivers, and is
/// told, deferred or unchanged; a failed reading is counted.
pub proof fn law_left_values_are_resolved<V: FnOnce(ElementId, bool, bool) -> ValueSnapshot>(
    call: Subject<AppObserver>,
    moment: FocusMoment,
    policy: &CapturePolicy,
    ledger: Subject<InputAuthorizations>,
    read_value: V,
    resolution: FocusChangeResolution,
)
    requires
        call.on.wf() && ledger.on@.wf(),
        call_ensures(
            AppObserver::resolve_focus_change::<V>,
            (call.on, moment, policy, ledger.on, read_value),
            resolution,
        ),
        call.on@.degraded < u64::MAX,
    ensures
        !(old(call.on)@.focused is Some && old(call.on)@.registry.contains_key(
            (old(call.on)@.focused->0.element, "AXValueChanged"@),
        ) && old(call.on)@.registry[(old(call.on)@.focused->0.element, "AXValueChanged"@)] is Active)
            ==> final(call.on)@ == old(call.on)@ && final(ledger.on)@ == old(ledger.on)@ && resolution
            == FocusChangeResolution::Immediate(None),
        resolution is Immediate && resolution->Immediate_0 is Some
            ==> resolution->Immediate_0->0 is UiValueChanged
            && resolution->Immediate_0->0->UiValueChanged_0.pid == old(call.on)@.pid
            && resolution->Immediate_0->0->UiValueChanged_0.window
            == old(call.on)@.focused->0.context.window
            && final(call.on)@.focused->0.context.capture.pending is None,
        resolution is Deferred ==> final(call.on)@.focused is Some
            && final(call.on)@.focused->0.context.capture.pending is Some,
        old(call.on)@.delivering() ==> exists|value: ValueSnapshot|
            {
                &&& #[trigger] call_ensures(
                    read_value,
                    (
                        old(call.on)@.focused->0.element,
                        old(call.on)@.allowed(*policy, old(call.on)@.focused->0.context.window),
                        moment.secure_input,
                    ),
                    value,
                )
                &&& value.failure is Some ==> final(call.on)@.degraded == old(call.on)@.degraded + 1
                &&& value.failure is None ==> final(call.on)@.degraded == old(call.on)@.degraded
                    && final(call.on)@.focused->0.context.field_class == value.field_class
                    && final(call.on)@.focused->0.context.observed_at == Some(moment.observed_at)
                &&& value.failure is None && (value.field_class is SecureText || value.field_class
                    is Unknown) ==> resolution == FocusChangeResolution::Immediate(None)
                    && final(call.on)@.focused->0.context.capture.pending is None
            },
        final(call.on)@.generation == old(call.on)@.generation && final(call.on)@.registry
            == old(call.on)@.registry && final(call.on)@.retired == old(call.on)@.retired,
{
    let before = call.on@;
    let value = choose|value: ValueSnapshot|
        {
            &&& before.delivering() ==> call_ensures(
                read_value,
                (
                    (before.focused->0).element,
                    before.allowed(*policy, (before.focused->0).context.window),
                    moment.secure_input,
                ),
                value,
            )
            &&& (final(call.on)@, final(ledger.on)@, resolution) == #[trigger] before.left(
                value,
                *policy,
                moment,
                ledger.on@,
            )
        };
    assert(before.delivering() ==> call_ensures(
        read_value,
        (
            before.focused->0.element,
            before.allowed(*policy, before.focused->0.context.window),
            moment.secure_input,
        ),
        value,
    ));
}

/// What comes of a handled focus. It ends with a focus event on what has the focus then. On another element
/// that element has it, in the next generation; on the same one the generation stays. A focus that cannot be
/// read changes nothing, and every other event tells a value of the same process.
pub open spec fn focus_told(
    before: ObserverModel,
    target: Result<Option<ElementId>, NativeAxError>,
    moment: FocusMoment,
    ledger: LedgerModel,
    after: ObserverModel,
    ledger_after: LedgerModel,
    events: Result<Seq<NativeAxEvent>, NativeAxError>,
) -> bool {
    &&& target matches Err(error) ==> events == Err::<Seq<NativeAxEvent>, NativeAxError>(error) && after
        == before && ledger_after == ledger
    &&& events is Ok ==> 1 <= events->Ok_0.len() <= 2 && (events->Ok_0.last()
        matches NativeAxEvent::UiFocused { pid, generation, window, observed_at, .. } && pid
        == before.pid && generation == after.generation && observed_at == moment.observed_at && (
    after.focused is Some ==> window == after.focused->0.context.window))
    &&& events is Ok && events->Ok_0.len() == 2 ==> events->Ok_0[0] is UiValueChanged
        && events->Ok_0[0]->UiValueChanged_0.pid == before.pid
    &&& events is Ok && target->Ok_0 is None ==> after.focused is None
    &&& events is Ok && after.focused is Some ==> target->Ok_0 == Some(after.focused->0.element)
    &&& events is Ok && target->Ok_0 is Some && before.focused is Some && target->Ok_0->0
        == before.focused->0.element ==> after.generation == before.generation
    &&& events is Ok && target->Ok_0 is Some && !(before.focused is Some && target->Ok_0->0
        == before.focused->0.element) ==> after.generation == before.generation + 1
    &&& events is Err ==> after.focused == before.focused && after.generation == before.generation
        && ledger_after == ledger
}

proof fn lemma_left_tells_a_value(
    observer: ObserverModel,
    value: ValueSnapshot,
    policy: CapturePolicy,
    moment: FocusMoment,
    ledger: LedgerModel,
)
    ensures
        ({
            let (after, _, resolution) = observer.left(value, policy, moment, ledger);
            let (event, _) = resolution.spec_parts();
            &&& event is Some ==> event->0 is UiValueChanged && event->0->UiValueChanged_0.pid
                == observer.pid
            &&& after.pid == observer.pid && after.generation == observer.generation
        }),
{
}

#[verifier::rlimit(60)]
proof fn lemma_focus_told(
    before: ObserverModel,
    target: Result<Option<ElementId>, NativeAxError>,
    outcomes: FocusOutcomes,
    policy: CapturePolicy,
    moment: FocusMoment,
    ledger: LedgerModel,
)
    requires
        before.generation < u64::MAX,
    ensures
        ({
            let (after, ledger_after, events) = before.focused_events(
                target,
                outcomes,
                policy,
                moment,
                ledger,
            );
            focus_told(before, target, moment, ledger, after, ledger_after, events)
        }),
{
    if let Ok(found) = target {
        if !before.same_target(found) {
            if outcomes.snapshot is Ok {
                let registered = before.added(found, outcomes.snapshot->Ok_0, outcomes.added);
                lemma_left_tells_a_value(registered, outcomes.value, policy, moment, ledger);
            }
        }
    }
}

/// A handled focus ends with a focus event on what has the focus then. On another element that element has
/// it, in the next generation; on the same one the generation stays. A focus that cannot be read changes
/// nothing, and every other event tells a value of the same process.
pub proof fn law_handled_focus_is_told<
    F: FnOnce(ElementId, bool) -> ValueFieldSnapshot,
    S: FnOnce(ElementId, bool) -> Result<Option<FocusedElementSnapshot>, NativeAxError>,
    V: FnOnce(ElementId, bool, bool) -> ValueSnapshot,
    A: Fn(ElementId) -> Result<(), NativeAxError>,
    R: Fn(ElementId) -> Result<(), NativeAxError>,
>(
    call: Subject<AppObserver>,
    target: Result<Option<ElementId>, NativeAxError>,
    moment: FocusMoment,
    policy: &CapturePolicy,
    ledger: Subject<InputAuthorizations>,
    read_field: F,
    read_snapshot: S,
    read_value: V,
    add_native: &A,
    remove_native: &R,
    events: Result<Vec<NativeAxEvent>, NativeAxError>,
)
    requires
        call.on.wf() && ledger.on@.wf(),
        call_ensures(
            AppObserver::focused_element_events::<F, S, V, A, R>,
            (
                call.on,
                target,
                moment,
                policy,
                ledger.on,
                read_field,
                read_snapshot,
                read_value,
                add_native,
                remove_native,
            ),
            events,
        ),
        call.on@.generation < u64::MAX,
    ensures
        focus_told(
            old(call.on)@,
            target,
            moment,
            old(ledger.on)@,
            final(call.on)@,
            final(ledger.on)@,
            events_view(events),
        ),
{
    let before = call.on@;
    let outcomes = choose|outcomes: FocusOutcomes|
        {
            &&& #[trigger] outcomes.called(
                before,
                target,
                *policy,
                moment.secure_input,
                read_field,
                read_snapshot,
                read_value,
                *add_native,
                *remove_native,
            )
            &&& outcomes.released(before, target, events is Ok, *remove_native)
            &&& (final(call.on)@, final(ledger.on)@, events_view(events)) == before.focused_events(
                target,
                outcomes,
                *policy,
                moment,
                ledger.on@,
            )
        };
    lemma_focus_told(before, target, outcomes, *policy, moment, ledger.on@);
}

/// What comes of a focus that is cleared where it cannot be read or registered: nothing has the focus then, and
/// that is told. Otherwise what has the focus is told.
pub open spec fn focus_told_or_cleared(
    before: ObserverModel,
    target: Result<Option<ElementId>, NativeAxError>,
    moment: FocusMoment,
    ledger: LedgerModel,
    after: ObserverModel,
    ledger_after: LedgerModel,
    events: Seq<NativeAxEvent>,
) -> bool {
    &&& 1 <= events.len() <= 2
    &&& events.last() matches NativeAxEvent::UiFocused { pid, generation, element, observed_at, .. }
        && pid == before.pid && generation == after.generation && observed_at == moment.observed_at && (
    after.focused is None ==> element is None)
    &&& events.len() == 2 ==> events[0] is UiValueChanged
    &&& target is Err ==> after.focused is None && events.len() == 1 && after.generation
        == before.generation + 1 && after.degraded >= before.degraded + 1 && ledger_after == ledger
    &&& after.focused is Some ==> target is Ok && target->Ok_0 == Some(after.focused->0.element)
}

#[verifier::rlimit(60)]
pub(crate) proof fn lemma_focus_told_or_cleared(
    before: ObserverModel,
    target: Result<Option<ElementId>, NativeAxError>,
    outcomes: FocusOutcomes,
    policy: CapturePolicy,
    moment: FocusMoment,
    ledger: LedgerModel,
)
    requires
        before.generation < u64::MAX,
        before.degraded + 1 < u64::MAX,
    ensures
        ({
            let (after, ledger_after, events) = before.focused_or_cleared(
                target,
                outcomes,
                policy,
                moment,
                ledger,
            );
            focus_told_or_cleared(before, target, moment, ledger, after, ledger_after, events)
        }),
{
    lemma_focus_told(before, target, outcomes, policy, moment, ledger);
    let (after, _, events) = before.focused_events(target, outcomes, policy, moment, ledger);
    assert(after.pid == before.pid);
    if events is Ok {
        assert(events->Ok_0.last() == after.focus_event(moment.observed_at));
    } else {
        let cleared = after.focus_lost(outcomes.removed);
        assert(cleared.focused is None);
        assert(cleared.pid == before.pid);
        if target is Err {
            assert(after == before);
            assert(cleared.degraded >= before.degraded + 1);
            assert(cleared.generation == before.generation + 1);
        }
    }
}

/// A focus that cannot be read or registered is cleared: nothing has the focus, and that is told. Otherwise
/// what has the focus is told.
pub proof fn law_lost_focus_is_cleared<
    F: FnOnce(ElementId, bool) -> ValueFieldSnapshot,
    S: FnOnce(ElementId, bool) -> Result<Option<FocusedElementSnapshot>, NativeAxError>,
    V: FnOnce(ElementId, bool, bool) -> ValueSnapshot,
    A: Fn(ElementId) -> Result<(), NativeAxError>,
    R: Fn(ElementId) -> Result<(), NativeAxError>,
>(
    call: Subject<AppObserver>,
    target: Result<Option<ElementId>, NativeAxError>,
    moment: FocusMoment,
    policy: &CapturePolicy,
    ledger: Subject<InputAuthorizations>,
    read_field: F,
    read_snapshot: S,
    read_value: V,
    add_native: &A,
    remove_native: &R,
    events: Vec<NativeAxEvent>,
)
    requires
        call.on.wf() && ledger.on@.wf(),
        call_ensures(
            AppObserver::focused_element_or_clear::<F, S, V, A, R>,
            (
                call.on,
                target,
                moment,
                policy,
                ledger.on,
                read_field,
                read_snapshot,
                read_value,
                add_native,
                remove_native,
            ),
            events,
        ),
        call.on@.generation < u64::MAX,
        call.on@.degraded + 1 < u64::MAX,
    ensures
        focus_told_or_cleared(
            old(call.on)@,
            target,
            moment,
            old(ledger.on)@,
            final(call.on)@,
            final(ledger.on)@,
            events@,
        ),
{
    let before = call.on@;
    let outcomes = choose|outcomes: FocusOutcomes|
        {
            &&& #[trigger] outcomes.called(
                before,
                target,
                *policy,
                moment.secure_input,
                read_field,
                read_snapshot,
                read_value,
                *add_native,
                *remove_native,
            )
            &&& outcomes.released_or_cleared(
                before,
                target,
                *policy,
                moment,
                ledger.on@,
                *remove_native,
            )
            &&& (final(call.on)@, final(ledger.on)@, events@) == before.focused_or_cleared(
                target,
                outcomes,
                *policy,
                moment,
                ledger.on@,
            )
        };
    lemma_focus_told_or_cleared(before, target, outcomes, *policy, moment, ledger.on@);
}

/// The class of the focused element is read again. An unreadable one changes nothing but the count; another
/// becomes its class, with its roles, and a field that is no text keeps nothing held.
pub proof fn law_refreshed_classes_are_those_read<
    F: FnOnce(ElementId, bool) -> ValueFieldSnapshot,
    A: Fn(ElementId) -> Result<(), NativeAxError>,
    R: Fn(ElementId) -> Result<(), NativeAxError>,
>(
    call: Subject<AppObserver>,
    secure_input: bool,
    ledger: Subject<InputAuthorizations>,
    read_field: F,
    add_native: &A,
    remove_native: &R,
    changed: bool,
)
    requires
        call.on.wf() && ledger.on@.wf(),
        call_ensures(
            AppObserver::refresh_current_field_class::<F, A, R>,
            (call.on, secure_input, ledger.on, read_field, add_native, remove_native),
            changed,
        ),
        call.on@.degraded + 1 < u64::MAX,
    ensures
        old(call.on)@.focused is None ==> !changed && final(call.on)@ == old(call.on)@ && final(ledger.on)@
            == old(ledger.on)@,
        old(call.on)@.focused is Some ==> exists|field: ValueFieldSnapshot|
            {
                &&& #[trigger] call_ensures(
                    read_field,
                    (old(call.on)@.focused->0.element, secure_input),
                    field,
                )
                &&& field.failure is Some ==> !changed && final(call.on)@.focused == old(call.on)@.focused
                    && final(call.on)@.degraded == old(call.on)@.degraded + 1
                    && final(call.on)@.registry == old(call.on)@.registry
                &&& field.failure is None && changed ==> {
                    let after = final(call.on)@.focused->0.context;
                    &&& after.field_class == field.field_class
                    &&& after.element.role == field.role && after.element.subrole == field.subrole
                    &&& !(field.field_class is KnownText) ==> after.capture.pending is None
                        && after.capture.baseline is None
                    &&& !(field.field_class is KnownSafeNonText) ==> after.element.value is None
                        && after.element.value_len is None
                }
                &&& field.failure is None && !(field.field_class is KnownText || field.field_class
                    is KnownSafeNonText) && field.registration_class == Some(field.field_class)
                    ==> final(call.on)@.focused->0.context.field_class == field.field_class && !(
                final(call.on)@.registry.contains_key(
                    (old(call.on)@.focused->0.element, "AXValueChanged"@),
                ) && final(call.on)@.registry[(
                    old(call.on)@.focused->0.element,
                    "AXValueChanged"@,
                )] is Active)
            },
        old(call.on)@.focused is Some ==> final(call.on)@.focused is Some
            && final(call.on)@.focused->0.element == old(call.on)@.focused->0.element && (changed
            <==> final(call.on)@.focused->0.context.field_class
            != old(call.on)@.focused->0.context.field_class),
        final(call.on)@.generation == old(call.on)@.generation && final(call.on)@.retired
            == old(call.on)@.retired,
{
    let before = call.on@;
    let (field, outcome) = choose|field: ValueFieldSnapshot, outcome: Result<(), NativeAxError>|
        {
            &&& before.focused matches Some(target) ==> call_ensures(
                read_field,
                (target.element, secure_input),
                field,
            ) && element_step_called(
                before.step(ObserverModel::registration_class(field)),
                target.element,
                *add_native,
                *remove_native,
                outcome,
            )
            &&& (final(call.on)@, final(ledger.on)@) == #[trigger] before.refreshed_counted(
                field,
                outcome,
                ledger.on@,
            )
        };
    assert(before.focused is Some ==> call_ensures(
        read_field,
        (before.focused->0.element, secure_input),
        field,
    ));
}

/// The second look at an application's focus is taken once, when it is due; before, nothing is looked at.
pub proof fn law_second_looks_are_taken_once<
    F: FnOnce(ElementId, bool) -> ValueFieldSnapshot,
    S: FnOnce(ElementId, bool) -> Result<Option<FocusedElementSnapshot>, NativeAxError>,
    V: FnOnce(ElementId, bool, bool) -> ValueSnapshot,
    T: FnOnce() -> Result<Option<ElementId>, NativeAxError>,
    A: Fn(ElementId) -> Result<(), NativeAxError>,
    R: Fn(ElementId) -> Result<(), NativeAxError>,
>(
    call: Subject<AppObserver>,
    moment: FocusMoment,
    policy: &CapturePolicy,
    ledger: Subject<InputAuthorizations>,
    read_target: T,
    read_field: F,
    read_snapshot: S,
    read_value: V,
    add_native: &A,
    remove_native: &R,
    observations: Vec<NativeAxObservation>,
)
    requires
        call.on.wf() && ledger.on@.wf(),
        call_ensures(
            AppObserver::reconcile_accessibility_if_due::<F, S, V, T, A, R>,
            (
                call.on,
                moment,
                policy,
                ledger.on,
                read_target,
                read_field,
                read_snapshot,
                read_value,
                add_native,
                remove_native,
            ),
            observations,
        ),
        call.on@.generation < u64::MAX,
        call.on@.degraded + 1 < u64::MAX,
    ensures
        observations@.len() > 0 <==> (old(call.on)@.activation.focused_reconcile_at matches Some(deadline)
            && deadline.nanos <= moment.notification_at.nanos),
        observations@.len() > 0 ==> final(call.on)@.activation.focused_reconcile_at is None
            && observations@.last() is FocusedFieldObserved,
        observations@.len() == 0 ==> final(call.on)@ == old(call.on)@ && final(ledger.on)@ == old(ledger.on)@,
{
    let before = call.on@;
    if before.activation.is_due(moment.notification_at) {
        let used = before.activation_used();
        let (target, outcomes) = choose|
            target: Result<Option<ElementId>, NativeAxError>,
            outcomes: FocusOutcomes,
        |
            {
                &&& #[trigger] call_ensures(read_target, (), target)
                &&& #[trigger] outcomes.called(
                    used,
                    target,
                    *policy,
                    moment.secure_input,
                    read_field,
                    read_snapshot,
                    read_value,
                    *add_native,
                    *remove_native,
                )
                &&& outcomes.released_or_cleared(
                    used,
                    target,
                    *policy,
                    moment,
                    ledger.on@,
                    *remove_native,
                )
                &&& ({
                    let (after, ledger_after, events) = used.focused_or_cleared(
                        target,
                        outcomes,
                        *policy,
                        moment,
                        ledger.on@,
                    );
                    &&& final(call.on)@ == after
                    &&& final(ledger.on)@ == ledger_after
                    &&& observations@ == internalized(events)
                })
            };
        lemma_focus_told_or_cleared(used, target, outcomes, *policy, moment, ledger.on@);
        let events = used.focused_or_cleared(target, outcomes, *policy, moment, ledger.on@).2;
        assert(observations@.last() == events.last().spec_internalized());
        lemma_focus_keeps_the_rest(used, target, outcomes, *policy, moment, ledger.on@);
    }
}

#[verifier::rlimit(60)]
pub(crate) proof fn lemma_focus_keeps_the_rest(
    before: ObserverModel,
    target: Result<Option<ElementId>, NativeAxError>,
    outcomes: FocusOutcomes,
    policy: CapturePolicy,
    moment: FocusMoment,
    ledger: LedgerModel,
)
    ensures
        ({
            let after = before.focused_or_cleared(target, outcomes, policy, moment, ledger).0;
            &&& after.activation == before.activation
            &&& after.pid == before.pid && after.app == before.app
            &&& after.manual == before.manual && after.enabled == before.enabled
            &&& after.window_target == before.window_target
        }),
{
}

} // verus!
