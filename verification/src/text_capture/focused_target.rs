//! Focus-generation state of an accessibility observer.

use vstd::prelude::*;

use crate::subject::Subject;

verus! {

/// The focused target and how often it changed.
#[derive(Debug)]
pub struct FocusedTarget<T> {
    generation: u64,
    current: Option<T>,
}

/// The generation after `generation`.
pub open spec fn next_of(generation: u64) -> u64 {
    if generation < u64::MAX {
        (generation + 1) as u64
    } else {
        u64::MAX
    }
}

impl<T> FocusedTarget<T> {
    pub closed spec fn spec_generation(self) -> u64 {
        self.generation
    }

    pub closed spec fn spec_current(self) -> Option<T> {
        self.current
    }

    /// No target, generation zero.
    pub fn new() -> (target: Self)
        ensures
            target.spec_generation() == 0,
            target.spec_current() is None,
    {
        FocusedTarget { generation: 0, current: None }
    }

    /// How many transitions there were.
    pub fn generation(&self) -> (generation: u64)
        ensures
            generation == self.spec_generation(),
    {
        self.generation
    }

    /// The generation that the next transition will have.
    pub fn next_generation(&self) -> (generation: u64)
        ensures
            generation == next_of(self.spec_generation()),
    {
        self.generation.saturating_add(1)
    }

    /// The current target.
    pub fn current(&self) -> (current: Option<&T>)
        ensures
            current == match self.spec_current() {
                Some(target) => Some(&target),
                None => None,
            },
    {
        self.current.as_ref()
    }

    /// The current target, for changes to it.
    pub fn current_mut(&mut self) -> (current: Option<&mut T>)
        ensures
            final(self).spec_generation() == old(self).spec_generation(),
            match current {
                Some(target) => old(self).spec_current() == Some(*target)
                    && final(self).spec_current() == Some(*final(target)),
                None => old(self).spec_current() is None && final(self).spec_current() is None,
            },
    {
        self.current.as_mut()
    }

    /// Replaces the target. A failed registration leaves none; either way the
    /// generation moves on and the previous target is handed back.
    pub fn transition<E>(&mut self, registered: Result<Option<T>, E>) -> (previous: Result<
        Option<T>,
        (Option<T>, E),
    >)
        ensures
            final(self).spec_generation() == next_of(old(self).spec_generation()),
            final(self).spec_current() == match registered {
                Ok(current) => current,
                Err(_) => None,
            },
            previous == match registered {
                Ok(_) => Ok::<Option<T>, (Option<T>, E)>(old(self).spec_current()),
                Err(error) => Err((old(self).spec_current(), error)),
            },
    {
        self.generation = self.next_generation();
        let previous = self.current.take();
        match registered {
            Ok(current) => {
                self.current = current;
                Ok(previous)
            },
            Err(error) => Err((previous, error)),
        }
    }
}

/// Every attempt to take another target counts as one change. It hands back the target before; a
/// failed one leaves none.
pub proof fn law_targets_change_by_generations<T, E>(
    call: Subject<FocusedTarget<T>>,
    registered: Result<Option<T>, E>,
    previous: Result<Option<T>, (Option<T>, E)>,
)
    requires
        call_ensures(FocusedTarget::<T>::transition::<E>, (call.on, registered), previous),
        call.on.spec_generation() < u64::MAX,
    ensures
        final(call.on).spec_generation() == old(call.on).spec_generation() + 1,
        registered matches Ok(target) ==> final(call.on).spec_current() == target && previous
            == Ok::<Option<T>, (Option<T>, E)>(old(call.on).spec_current()),
        registered matches Err(error) ==> final(call.on).spec_current() is None && previous
            == Err::<Option<T>, (Option<T>, E)>((old(call.on).spec_current(), error)),
{
}

} // verus!
