//! Which notifications are registered with the native side.

use vstd::prelude::*;

use super::types::{
    ElementId, NativeAxError, AX_ERROR_NOTIFICATION_ALREADY_REGISTERED,
    AX_ERROR_NOTIFICATION_NOT_REGISTERED,
};
use crate::focused_field::FieldClass;
use crate::subject::Subject;
use crate::text::same_str;

verus! {

/// Where a registration stands. One that could not be taken back is stale: its
/// deliveries are ignored until it is added again.
#[derive(Clone, Copy, Debug, PartialEq, Eq, Structural)]
pub enum RegistrationState {
    Active,
    Stale,
}

/// A registration call that failed.
#[derive(Clone, Copy, Debug, PartialEq, Eq)]
pub enum RegistrationError {
    Register(NativeAxError),
    Unregister(NativeAxError),
}

/// Element and notification of a registration.
pub type RegistrationKey = (ElementId, Seq<char>);

/// Registrations by element and notification; a missing one is unregistered.
pub type RegistryModel = Map<(ElementId, Seq<char>), RegistrationState>;

/// Whether an element of this class delivers its value.
pub open spec fn eligible(field_class: FieldClass) -> bool {
    field_class is KnownText || field_class is KnownSafeNonText
}

/// Whether an element of this class delivers its value.
pub fn value_notification_eligible(field_class: FieldClass) -> (delivers: bool)
    ensures
        delivers == eligible(field_class),
{
    matches!(field_class, FieldClass::KnownText(_) | FieldClass::KnownSafeNonText)
}

/// Whether adding a registration took effect: it is there now, new or not.
pub open spec fn added(outcome: Result<(), NativeAxError>) -> bool {
    outcome matches Err(error) ==> error.code == AX_ERROR_NOTIFICATION_ALREADY_REGISTERED
}

/// Whether removing a registration took effect: it is gone now, was it there or
/// not.
pub open spec fn removed(outcome: Result<(), NativeAxError>) -> bool {
    outcome matches Err(error) ==> error.code == AX_ERROR_NOTIFICATION_NOT_REGISTERED
}

/// The registry after adding was tried.
pub open spec fn after_add(
    registry: RegistryModel,
    key: (ElementId, Seq<char>),
    outcome: Result<(), NativeAxError>,
) -> RegistryModel {
    if added(outcome) {
        registry.insert(key, RegistrationState::Active)
    } else {
        registry
    }
}

/// The registry after removing was tried.
pub open spec fn after_remove(
    registry: RegistryModel,
    key: (ElementId, Seq<char>),
    outcome: Result<(), NativeAxError>,
) -> RegistryModel {
    if removed(outcome) {
        registry.remove(key)
    } else {
        registry.insert(key, RegistrationState::Stale)
    }
}

/// Whether a registration delivers.
pub open spec fn delivers(registry: RegistryModel, key: (ElementId, Seq<char>)) -> bool {
    registry.contains_key(key) && registry[key] is Active
}

/// What comes of adding.
pub open spec fn add_result(outcome: Result<(), NativeAxError>) -> Result<(), RegistrationError> {
    if added(outcome) {
        Ok(())
    } else {
        Err(RegistrationError::Register(outcome->Err_0))
    }
}

/// What comes of removing.
pub open spec fn remove_result(outcome: Result<(), NativeAxError>) -> Result<
    (),
    RegistrationError,
> {
    if removed(outcome) {
        Ok(())
    } else {
        Err(RegistrationError::Unregister(outcome->Err_0))
    }
}

/// What a registration needs to fit the class of its element.
#[derive(Clone, Copy, Debug, PartialEq, Eq, Structural)]
pub enum RegistrationStep {
    Keep,
    Add,
    Remove,
}

/// An eligible element is registered, and an active registration of any other
/// is taken back.
pub open spec fn step_for(
    registry: RegistryModel,
    key: (ElementId, Seq<char>),
    field_class: FieldClass,
) -> RegistrationStep {
    if eligible(field_class) && !delivers(registry, key) {
        RegistrationStep::Add
    } else if !eligible(field_class) && delivers(registry, key) {
        RegistrationStep::Remove
    } else {
        RegistrationStep::Keep
    }
}

/// The registry once a step was tried.
pub open spec fn after_step(
    registry: RegistryModel,
    key: (ElementId, Seq<char>),
    step: RegistrationStep,
    outcome: Result<(), NativeAxError>,
) -> RegistryModel {
    match step {
        RegistrationStep::Keep => registry,
        RegistrationStep::Add => after_add(registry, key, outcome),
        RegistrationStep::Remove => after_remove(registry, key, outcome),
    }
}

/// What comes of a step.
pub open spec fn step_result(
    step: RegistrationStep,
    outcome: Result<(), NativeAxError>,
) -> Result<(), RegistrationError> {
    match step {
        RegistrationStep::Keep => Ok(()),
        RegistrationStep::Add => add_result(outcome),
        RegistrationStep::Remove => remove_result(outcome),
    }
}

#[derive(Debug)]
struct Registration {
    element: ElementId,
    notification: String,
    state: RegistrationState,
}

impl Registration {
    spec fn key(self) -> (ElementId, Seq<char>) {
        (self.element, self.notification@)
    }
}

spec fn model_of(entries: Seq<Registration>) -> RegistryModel
    decreases entries.len(),
{
    if entries.len() == 0 {
        Map::empty()
    } else {
        model_of(entries.drop_last()).insert(entries.last().key(), entries.last().state)
    }
}

spec fn distinct(entries: Seq<Registration>) -> bool {
    forall|i: int, j: int|
        #![trigger entries[i], entries[j]]
        0 <= i < j < entries.len() ==> entries[i].key() != entries[j].key()
}

proof fn lemma_model(entries: Seq<Registration>, key: (ElementId, Seq<char>))
    requires
        distinct(entries),
    ensures
        model_of(entries).contains_key(key) <==> exists|i: int|
            0 <= i < entries.len() && (#[trigger] entries[i]).key() == key,
        forall|i: int|
            0 <= i < entries.len() && (#[trigger] entries[i]).key() == key ==> model_of(
                entries,
            )[key] == entries[i].state,
    decreases entries.len(),
{
    if entries.len() > 0 {
        let rest = entries.drop_last();
        assert(distinct(rest)) by {
            assert forall|i: int, j: int|
                #![trigger rest[i], rest[j]]
                0 <= i < j < rest.len() implies rest[i].key() != rest[j].key() by {
                assert(rest[i] == entries[i] && rest[j] == entries[j]);
            }
        }
        lemma_model(rest, key);
        let last = entries.len() - 1;
        assert(entries.last() == entries[last]);
        if model_of(entries).contains_key(key) {
            if entries[last].key() != key {
                let i = choose|i: int| 0 <= i < rest.len() && (#[trigger] rest[i]).key() == key;
                assert(entries[i] == rest[i]);
            }
        }
        assert forall|i: int| 0 <= i < entries.len() && (#[trigger] entries[i]).key() == key implies
            model_of(entries).contains_key(key) && model_of(entries)[key] == entries[i].state by {
            if i < last {
                assert(rest[i] == entries[i]);
            }
        }
    }
}

/// The registrations of one observer.
#[derive(Debug)]
pub struct NotificationRegistry {
    entries: Vec<Registration>,
}

impl View for NotificationRegistry {
    type V = RegistryModel;

    closed spec fn view(&self) -> RegistryModel {
        model_of(self.entries@)
    }
}

impl Default for NotificationRegistry {
    fn default() -> (registry: NotificationRegistry)
        ensures
            registry.wf(),
            registry@ == RegistryModel::empty(),
    {
        NotificationRegistry { entries: Vec::new() }
    }
}

impl NotificationRegistry {
    /// No element has two registrations of one notification.
    pub closed spec fn wf(&self) -> bool {
        distinct(self.entries@)
    }

    fn find(&self, element: ElementId, notification: &str) -> (found: Option<usize>)
        requires
            self.wf(),
        ensures
            match found {
                Some(index) => index < self.entries@.len() && self.entries@[index as int].key() == (
                    element,
                    notification@,
                ) && self@.contains_key((element, notification@)) && self@[(
                    element,
                    notification@,
                )] == self.entries@[index as int].state,
                None => !self@.contains_key((element, notification@)) && forall|i: int|
                    0 <= i < self.entries@.len() ==> (#[trigger] self.entries@[i]).key() != (
                        element,
                        notification@,
                    ),
            },
    {
        proof {
            lemma_model(self.entries@, (element, notification@));
        }
        let mut index: usize = 0;
        while index < self.entries.len()
            invariant
                index <= self.entries@.len(),
                forall|i: int|
                    0 <= i < index ==> (#[trigger] self.entries@[i]).key() != (
                        element,
                        notification@,
                    ),
                forall|i: int|
                    0 <= i < self.entries@.len() && (#[trigger] self.entries@[i]).key() == (
                        element,
                        notification@,
                    ) ==> model_of(self.entries@).contains_key((element, notification@))
                        && model_of(self.entries@)[(element, notification@)]
                        == self.entries@[i].state,
            decreases self.entries@.len() - index,
        {
            if self.entries[index].element == element && same_str(
                self.entries[index].notification.as_str(),
                notification,
            ) {
                assert(self.entries@[index as int].key() == (element, notification@));
                return Some(index);
            }
            index = index + 1;
        }
        None
    }

    fn set(&mut self, element: ElementId, notification: &str, state: RegistrationState)
        requires
            old(self).wf(),
        ensures
            final(self).wf(),
            final(self)@ == old(self)@.insert((element, notification@), state),
    {
        let ghost before = self.entries@;
        let ghost key = (element, notification@);
        match self.find(element, notification) {
            Some(index) => {
                let entry = Registration { element, notification: notification.to_owned(), state };
                self.entries.set(index, entry);
                proof {
                    assert(distinct(self.entries@)) by {
                        assert forall|i: int, j: int|
                            #![trigger self.entries@[i], self.entries@[j]]
                            0 <= i < j < self.entries@.len() implies self.entries@[i].key()
                            != self.entries@[j].key() by {
                            assert(before[i].key() != before[j].key());
                        }
                    }
                    lemma_same_keys(before, self.entries@, key, index as int);
                }
            },
            None => {
                let entry = Registration { element, notification: notification.to_owned(), state };
                self.entries.push(entry);
                proof {
                    assert(distinct(self.entries@)) by {
                        assert forall|i: int, j: int|
                            #![trigger self.entries@[i], self.entries@[j]]
                            0 <= i < j < self.entries@.len() implies self.entries@[i].key()
                            != self.entries@[j].key() by {
                            if j < before.len() {
                                assert(before[i].key() != before[j].key());
                            } else {
                                assert(before[i].key() != key);
                            }
                        }
                    }
                    assert(self.entries@.drop_last() =~= before);
                }
            },
        }
    }

    fn take_out(&mut self, element: ElementId, notification: &str)
        requires
            old(self).wf(),
        ensures
            final(self).wf(),
            final(self)@ == old(self)@.remove((element, notification@)),
    {
        let ghost before = self.entries@;
        let ghost key = (element, notification@);
        match self.find(element, notification) {
            Some(index) => {
                self.entries.remove(index);
                proof {
                    lemma_removed(before, self.entries@, key, index as int);
                }
            },
            None => {
                assert(self@.remove(key) =~= self@);
            },
        }
    }

    /// Takes in what came of adding a registration. One that is already there
    /// counts as added.
    pub fn record_add(
        &mut self,
        element: ElementId,
        notification: &str,
        outcome: Result<(), NativeAxError>,
    ) -> (result: Result<(), RegistrationError>)
        requires
            old(self).wf(),
        ensures
            final(self).wf(),
            result == add_result(outcome),
            final(self)@ == after_add(old(self)@, (element, notification@), outcome),
    {
        match outcome {
            Ok(()) => {
                self.set(element, notification, RegistrationState::Active);
                Ok(())
            },
            Err(error) => {
                if error.code() == AX_ERROR_NOTIFICATION_ALREADY_REGISTERED {
                    self.set(element, notification, RegistrationState::Active);
                    Ok(())
                } else {
                    Err(RegistrationError::Register(error))
                }
            },
        }
    }

    /// Takes in what came of removing a registration. One that is not there any
    /// more counts as removed; one that cannot be removed becomes stale.
    pub fn record_remove(
        &mut self,
        element: ElementId,
        notification: &str,
        outcome: Result<(), NativeAxError>,
    ) -> (result: Result<(), RegistrationError>)
        requires
            old(self).wf(),
        ensures
            final(self).wf(),
            result == remove_result(outcome),
            final(self)@ == after_remove(old(self)@, (element, notification@), outcome),
    {
        match outcome {
            Ok(()) => {
                self.take_out(element, notification);
                Ok(())
            },
            Err(error) => {
                if error.code() == AX_ERROR_NOTIFICATION_NOT_REGISTERED {
                    self.take_out(element, notification);
                    Ok(())
                } else {
                    self.set(element, notification, RegistrationState::Stale);
                    Err(RegistrationError::Unregister(error))
                }
            },
        }
    }

    /// Adds a registration unless it is active.
    pub fn register<A: FnOnce() -> Result<(), NativeAxError>>(
        &mut self,
        element: ElementId,
        notification: &str,
        add_native: A,
    ) -> (result: Result<(), RegistrationError>)
        requires
            old(self).wf(),
            !delivers(old(self)@, (element, notification@)) ==> call_requires(add_native, ()),
        ensures
            final(self).wf(),
            delivers(old(self)@, (element, notification@)) ==> result is Ok && final(self)@ == old(
                self,
            )@,
            !delivers(old(self)@, (element, notification@)) ==> exists|
                outcome: Result<(), NativeAxError>,
            |
                {
                    &&& #[trigger] call_ensures(add_native, (), outcome)
                    &&& result == add_result(outcome)
                    &&& final(self)@ == after_add(old(self)@, (element, notification@), outcome)
                },
    {
        if self.accepts_delivery(element, notification) {
            return Ok(());
        }
        let outcome = add_native();
        self.record_add(element, notification, outcome)
    }

    /// Takes a registration back, if there is one.
    pub fn unregister<R: FnOnce() -> Result<(), NativeAxError>>(
        &mut self,
        element: ElementId,
        notification: &str,
        remove_native: R,
    ) -> (result: Result<(), RegistrationError>)
        requires
            old(self).wf(),
            old(self)@.contains_key((element, notification@)) ==> call_requires(remove_native, ()),
        ensures
            final(self).wf(),
            !old(self)@.contains_key((element, notification@)) ==> result is Ok && final(self)@
                == old(self)@,
            old(self)@.contains_key((element, notification@)) ==> exists|
                outcome: Result<(), NativeAxError>,
            |
                {
                    &&& #[trigger] call_ensures(remove_native, (), outcome)
                    &&& result == remove_result(outcome)
                    &&& final(self)@ == after_remove(old(self)@, (element, notification@), outcome)
                },
    {
        if !self.is_registered(element, notification) {
            return Ok(());
        }
        let outcome = remove_native();
        self.record_remove(element, notification, outcome)
    }

    /// Whether there is a registration, active or stale.
    pub fn is_registered(&self, element: ElementId, notification: &str) -> (registered: bool)
        requires
            self.wf(),
        ensures
            registered == self@.contains_key((element, notification@)),
    {
        self.find(element, notification).is_some()
    }

    /// What a registration needs to fit the class of its element.
    pub fn step(&self, element: ElementId, notification: &str, field_class: FieldClass) -> (step:
        RegistrationStep)
        requires
            self.wf(),
        ensures
            step == step_for(self@, (element, notification@), field_class),
    {
        let active = self.accepts_delivery(element, notification);
        if value_notification_eligible(field_class) {
            if active {
                RegistrationStep::Keep
            } else {
                RegistrationStep::Add
            }
        } else if active {
            RegistrationStep::Remove
        } else {
            RegistrationStep::Keep
        }
    }

    /// Takes in what came of a step.
    pub fn record_step(
        &mut self,
        element: ElementId,
        notification: &str,
        step: RegistrationStep,
        outcome: Result<(), NativeAxError>,
    ) -> (result: Result<(), RegistrationError>)
        requires
            old(self).wf(),
        ensures
            final(self).wf(),
            result == step_result(step, outcome),
            final(self)@ == after_step(old(self)@, (element, notification@), step, outcome),
    {
        match step {
            RegistrationStep::Keep => Ok(()),
            RegistrationStep::Add => self.record_add(element, notification, outcome),
            RegistrationStep::Remove => self.record_remove(element, notification, outcome),
        }
    }

    /// Makes the registration fit the class of its element: an eligible element
    /// is registered, and an active registration of any other is taken back.
    pub fn reconcile<
        A: FnOnce() -> Result<(), NativeAxError>,
        R: FnOnce() -> Result<(), NativeAxError>,
    >(
        &mut self,
        element: ElementId,
        notification: &str,
        field_class: FieldClass,
        add_native: A,
        remove_native: R,
    ) -> (result: Result<(), RegistrationError>)
        requires
            old(self).wf(),
            step_ready(
                step_for(old(self)@, (element, notification@), field_class),
                add_native,
                remove_native,
            ),
        ensures
            final(self).wf(),
            exists|outcome: Result<(), NativeAxError>|
                {
                    &&& #[trigger] step_called(
                        step_for(old(self)@, (element, notification@), field_class),
                        add_native,
                        remove_native,
                        outcome,
                    )
                    &&& result == step_result(
                        step_for(old(self)@, (element, notification@), field_class),
                        outcome,
                    )
                    &&& final(self)@ == after_step(
                        old(self)@,
                        (element, notification@),
                        step_for(old(self)@, (element, notification@), field_class),
                        outcome,
                    )
                },
    {
        let step = self.step(element, notification, field_class);
        let outcome = call_step(step, add_native, remove_native);
        self.record_step(element, notification, step, outcome)
    }

    /// Whether deliveries of a registration are taken.
    pub fn accepts_delivery(&self, element: ElementId, notification: &str) -> (accepted: bool)
        requires
            self.wf(),
        ensures
            accepted == delivers(self@, (element, notification@)),
    {
        match self.find(element, notification) {
            Some(index) => matches!(self.entries[index].state, RegistrationState::Active),
            None => false,
        }
    }

    /// The registrations that are still there, active or stale, each once.
    pub fn remaining(&self) -> (keys: Vec<(ElementId, String)>)
        requires
            self.wf(),
        ensures
            forall|i: int|
                0 <= i < keys@.len() ==> self@.contains_key(
                    ((#[trigger] keys@[i]).0, keys@[i].1@),
                ),
            forall|key: (ElementId, Seq<char>)| #[trigger]
                self@.contains_key(key) ==> exists|i: int|
                    0 <= i < keys@.len() && ((#[trigger] keys@[i]).0, keys@[i].1@) == key,
            forall|i: int, j: int|
                #![trigger keys@[i], keys@[j]]
                0 <= i < j < keys@.len() ==> (keys@[i].0, keys@[i].1@) != (
                    keys@[j].0,
                    keys@[j].1@,
                ),
    {
        let mut keys: Vec<(ElementId, String)> = Vec::new();
        let mut index: usize = 0;
        while index < self.entries.len()
            invariant
                index <= self.entries@.len(),
                keys@.len() == index,
                forall|i: int|
                    0 <= i < index ==> ((#[trigger] keys@[i]).0, keys@[i].1@)
                        == self.entries@[i].key(),
            decreases self.entries@.len() - index,
        {
            keys.push((self.entries[index].element, self.entries[index].notification.clone()));
            index = index + 1;
        }
        proof {
            assert forall|i: int| 0 <= i < keys@.len() implies self@.contains_key(
                ((#[trigger] keys@[i]).0, keys@[i].1@),
            ) by {
                lemma_model(self.entries@, self.entries@[i].key());
                assert(self.entries@[i].key() == (keys@[i].0, keys@[i].1@));
            }
            assert forall|key: (ElementId, Seq<char>)| #[trigger]
                self@.contains_key(key) implies exists|i: int|
                0 <= i < keys@.len() && ((#[trigger] keys@[i]).0, keys@[i].1@) == key by {
                lemma_model(self.entries@, key);
                let i = choose|i: int|
                    0 <= i < self.entries@.len() && (#[trigger] self.entries@[i]).key() == key;
                assert((keys@[i].0, keys@[i].1@) == key);
            }
            assert forall|i: int, j: int|
                #![trigger keys@[i], keys@[j]]
                0 <= i < j < keys@.len() implies (keys@[i].0, keys@[i].1@) != (
                keys@[j].0,
                keys@[j].1@,
            ) by {
                assert(self.entries@[i].key() != self.entries@[j].key());
            }
        }
        keys
    }
}

proof fn lemma_same_keys(
    before: Seq<Registration>,
    after: Seq<Registration>,
    key: (ElementId, Seq<char>),
    index: int,
)
    requires
        distinct(before),
        distinct(after),
        0 <= index < before.len(),
        before[index].key() == key,
        after.len() == before.len(),
        after[index].key() == key,
        forall|i: int| 0 <= i < before.len() && i != index ==> after[i] == before[i],
    ensures
        model_of(after) == model_of(before).insert(key, after[index].state),
{
    let expected = model_of(before).insert(key, after[index].state);
    assert forall|other: (ElementId, Seq<char>)| true implies (#[trigger] model_of(
        after,
    ).contains_key(other) == expected.contains_key(other)) && (expected.contains_key(other)
        ==> model_of(after)[other] == expected[other]) by {
        lemma_model(before, other);
        lemma_model(after, other);
        if other != key {
            if model_of(before).contains_key(other) {
                let i = choose|i: int|
                    0 <= i < before.len() && (#[trigger] before[i]).key() == other;
                assert(after[i] == before[i]);
            }
            if model_of(after).contains_key(other) {
                let i = choose|i: int| 0 <= i < after.len() && (#[trigger] after[i]).key() == other;
                assert(after[i] == before[i]);
            }
        } else {
            assert(after[index].key() == other);
        }
    }
    assert(model_of(after) =~= expected);
}

proof fn lemma_removed(
    before: Seq<Registration>,
    after: Seq<Registration>,
    key: (ElementId, Seq<char>),
    index: int,
)
    requires
        distinct(before),
        0 <= index < before.len(),
        before[index].key() == key,
        after == before.remove(index),
    ensures
        distinct(after),
        model_of(after) == model_of(before).remove(key),
{
    assert forall|i: int, j: int|
        #![trigger after[i], after[j]]
        0 <= i < j < after.len() implies after[i].key() != after[j].key() by {
        let a = if i < index {
            i
        } else {
            i + 1
        };
        let b = if j < index {
            j
        } else {
            j + 1
        };
        assert(after[i] == before[a] && after[j] == before[b]);
    }
    let expected = model_of(before).remove(key);
    assert forall|other: (ElementId, Seq<char>)| true implies (#[trigger] model_of(
        after,
    ).contains_key(other) == expected.contains_key(other)) && (expected.contains_key(other)
        ==> model_of(after)[other] == expected[other]) by {
        lemma_model(before, other);
        lemma_model(after, other);
        if model_of(after).contains_key(other) {
            let i = choose|i: int| 0 <= i < after.len() && (#[trigger] after[i]).key() == other;
            let a = if i < index {
                i
            } else {
                i + 1
            };
            assert(after[i] == before[a]);
            assert(a != index);
        }
        if other != key && model_of(before).contains_key(other) {
            let i = choose|i: int| 0 <= i < before.len() && (#[trigger] before[i]).key() == other;
            let a = if i < index {
                i
            } else {
                i - 1
            };
            assert(after[a] == before[i]);
        }
    }
    assert(model_of(after) =~= expected);
}

/// Whether `outcome` is what the calls of a step gave; a step that keeps the
/// registration makes none.
pub open spec fn step_called<
    A: FnOnce() -> Result<(), NativeAxError>,
    R: FnOnce() -> Result<(), NativeAxError>,
>(
    step: RegistrationStep,
    add_native: A,
    remove_native: R,
    outcome: Result<(), NativeAxError>,
) -> bool {
    match step {
        RegistrationStep::Keep => outcome is Ok,
        RegistrationStep::Add => call_ensures(add_native, (), outcome),
        RegistrationStep::Remove => call_ensures(remove_native, (), outcome),
    }
}

/// Whether the calls of a step can be made.
pub open spec fn step_ready<
    A: FnOnce() -> Result<(), NativeAxError>,
    R: FnOnce() -> Result<(), NativeAxError>,
>(step: RegistrationStep, add_native: A, remove_native: R) -> bool {
    match step {
        RegistrationStep::Keep => true,
        RegistrationStep::Add => call_requires(add_native, ()),
        RegistrationStep::Remove => call_requires(remove_native, ()),
    }
}

/// Makes the calls of a step.
pub fn call_step<
    A: FnOnce() -> Result<(), NativeAxError>,
    R: FnOnce() -> Result<(), NativeAxError>,
>(step: RegistrationStep, add_native: A, remove_native: R) -> (outcome: Result<(), NativeAxError>)
    requires
        step_ready(step, add_native, remove_native),
    ensures
        step_called(step, add_native, remove_native, outcome),
{
    match step {
        RegistrationStep::Keep => Ok(()),
        RegistrationStep::Add => add_native(),
        RegistrationStep::Remove => remove_native(),
    }
}

/// A registration that could not be taken back never delivers until it was
/// added again.
pub proof fn law_stale_registration_is_silent(
    registry: RegistryModel,
    key: (ElementId, Seq<char>),
    removal: Result<(), NativeAxError>,
    addition: Result<(), NativeAxError>,
)
    ensures
        !delivers(after_remove(registry, key, removal), key),
        added(addition) ==> delivers(
            after_add(after_remove(registry, key, removal), key, addition),
            key,
        ),
        !added(addition) ==> !delivers(
            after_add(after_remove(registry, key, removal), key, addition),
            key,
        ),
{
}

/// What happens to one registration leaves every other as it is.
pub proof fn law_registrations_are_independent(
    registry: RegistryModel,
    key: (ElementId, Seq<char>),
    other: (ElementId, Seq<char>),
    outcome: Result<(), NativeAxError>,
)
    requires
        key != other,
    ensures
        delivers(after_add(registry, key, outcome), other) == delivers(registry, other),
        delivers(after_remove(registry, key, outcome), other) == delivers(registry, other),
{
}

/// Adding makes a registration deliver where the call succeeded or found it there already; any other
/// outcome is the error of adding and changes nothing.
pub proof fn law_added_registrations_deliver(
    call: Subject<NotificationRegistry>,
    element: ElementId,
    notification: &str,
    outcome: Result<(), NativeAxError>,
    result: Result<(), RegistrationError>,
)
    requires
        call.on.wf(),
        call_ensures(
            NotificationRegistry::record_add,
            (call.on, element, notification, outcome),
            result,
        ),
    ensures
        outcome is Ok || outcome->Err_0.code == -25_209 ==> result is Ok
            && final(call.on)@.contains_key((element, notification@))
            && final(call.on)@[(element, notification@)] is Active,
        outcome is Err && outcome->Err_0.code != -25_209 ==> result == Err::<
            (),
            RegistrationError,
        >(RegistrationError::Register(outcome->Err_0)) && final(call.on)@ == old(call.on)@,
        forall|other: RegistrationKey|
            other != (element, notification@) ==> (#[trigger] final(call.on)@.contains_key(other)
                == old(call.on)@.contains_key(other)) && (old(call.on)@.contains_key(other)
                ==> final(call.on)@[other] == old(call.on)@[other]),
{
}

/// Removing makes a registration disappear where the call succeeded or found none; any other outcome is
/// the error of removing and leaves the registration there, but silent.
pub proof fn law_removed_registrations_are_silent(
    call: Subject<NotificationRegistry>,
    element: ElementId,
    notification: &str,
    outcome: Result<(), NativeAxError>,
    result: Result<(), RegistrationError>,
)
    requires
        call.on.wf(),
        call_ensures(
            NotificationRegistry::record_remove,
            (call.on, element, notification, outcome),
            result,
        ),
    ensures
        outcome is Ok || outcome->Err_0.code == -25_210 ==> result is Ok
            && !final(call.on)@.contains_key((element, notification@)),
        outcome is Err && outcome->Err_0.code != -25_210 ==> result == Err::<
            (),
            RegistrationError,
        >(RegistrationError::Unregister(outcome->Err_0)) && final(call.on)@.contains_key(
            (element, notification@),
        ) && final(call.on)@[(element, notification@)] is Stale,
        forall|other: RegistrationKey|
            other != (element, notification@) ==> (#[trigger] final(call.on)@.contains_key(other)
                == old(call.on)@.contains_key(other)) && (old(call.on)@.contains_key(other)
                ==> final(call.on)@[other] == old(call.on)@[other]),
{
}

/// A registration that delivers is not added again, and one that is not there is not taken back.
pub proof fn law_registrations_are_made_once<
    A: FnOnce() -> Result<(), NativeAxError>,
    R: FnOnce() -> Result<(), NativeAxError>,
>(
    adding: Subject<NotificationRegistry>,
    removing: Subject<NotificationRegistry>,
    element: ElementId,
    notification: &str,
    add_native: A,
    remove_native: R,
    add_made: Result<(), RegistrationError>,
    remove_made: Result<(), RegistrationError>,
)
    requires
        adding.on.wf() && removing.on.wf(),
        call_ensures(
            NotificationRegistry::register::<A>,
            (adding.on, element, notification, add_native),
            add_made,
        ),
        call_ensures(
            NotificationRegistry::unregister::<R>,
            (removing.on, element, notification, remove_native),
            remove_made,
        ),
    ensures
        old(adding.on)@.contains_key((element, notification@)) && old(adding.on)@[(element, notification@)] is Active
            ==> add_made is Ok && final(adding.on)@ == old(adding.on)@,
        add_made is Ok ==> final(adding.on)@.contains_key((element, notification@))
            && final(adding.on)@[(element, notification@)] is Active,
        add_made is Err ==> final(adding.on)@ == old(adding.on)@ && add_made->Err_0 is Register
            && call_ensures(add_native, (), Err::<(), NativeAxError>(add_made->Err_0->Register_0)),
        !old(removing.on)@.contains_key((element, notification@)) ==> remove_made is Ok
            && final(removing.on)@ == old(removing.on)@,
        remove_made is Ok ==> !final(removing.on)@.contains_key((element, notification@)),
        remove_made is Err ==> remove_made->Err_0 is Unregister && call_ensures(
            remove_native,
            (),
            Err::<(), NativeAxError>(remove_made->Err_0->Unregister_0),
        ) && final(removing.on)@.contains_key((element, notification@))
            && final(removing.on)@[(element, notification@)] is Stale,
{
}

/// After fitting a registration to its element, a text field or a safe element delivers unless adding
/// failed, and no other element does; every other registration is untouched.
pub proof fn law_fitted_registrations_follow_the_class<
    A: FnOnce() -> Result<(), NativeAxError>,
    R: FnOnce() -> Result<(), NativeAxError>,
>(
    call: Subject<NotificationRegistry>,
    element: ElementId,
    notification: &str,
    field_class: FieldClass,
    add_native: A,
    remove_native: R,
    result: Result<(), RegistrationError>,
    accepted: bool,
    now: NotificationRegistry,
)
    requires
        call.on.wf(),
        call_ensures(
            NotificationRegistry::reconcile::<A, R>,
            (call.on, element, notification, field_class, add_native, remove_native),
            result,
        ),
        now.wf() && now@ == final(call.on)@,
        call_ensures(NotificationRegistry::accepts_delivery, (&now, element, notification), accepted),
    ensures
        field_class is KnownText || field_class is KnownSafeNonText ==> (accepted <==> result is Ok),
        field_class is SecureText || field_class is Unknown ==> !accepted,
        result matches Err(error) ==> (error is Register <==> field_class is KnownText
            || field_class is KnownSafeNonText),
        forall|other: RegistrationKey|
            other != (element, notification@) ==> (#[trigger] now@.contains_key(other)
                == old(call.on)@.contains_key(other)) && (old(call.on)@.contains_key(other) ==> now@[other]
                == old(call.on)@[other]),
{
}

} // verus!
