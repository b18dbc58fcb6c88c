//! The failure that an observer currently reports.

use vstd::prelude::*;

use crate::subject::Subject;

verus! {

/// Which part of the observation failed.
#[derive(Clone, Copy, Debug, PartialEq, Eq, Structural)]
pub enum AxFailurePhase {
    Observer,
    SecureInput,
}

/// The call that failed, and whose success ends the failure.
#[derive(Clone, Copy, Debug, PartialEq, Eq, Structural)]
pub enum AxRecoverySite {
    ApplicationRole,
    SecureInputAttach,
    SecureInputDetach,
    SecureInputDecode,
    SecureInputPoll,
    SecureInputFlush,
    SecureInputTest,
}

impl AxRecoverySite {
    pub open spec fn spec_phase(self) -> AxFailurePhase {
        match self {
            AxRecoverySite::ApplicationRole => AxFailurePhase::Observer,
            _ => AxFailurePhase::SecureInput,
        }
    }

    /// The part of the observation that a site belongs to.
    pub fn phase(self) -> (phase: AxFailurePhase)
        ensures
            phase == self.spec_phase(),
    {
        match self {
            AxRecoverySite::ApplicationRole => AxFailurePhase::Observer,
            _ => AxFailurePhase::SecureInput,
        }
    }
}

/// A failure that has not ended.
#[derive(Clone, Copy, Debug, PartialEq, Eq, Structural)]
pub struct AxFailure {
    pub site: AxRecoverySite,
    pub phase: AxFailurePhase,
}

/// The failure reported now, if any.
#[derive(Clone, Copy, Debug, PartialEq, Eq, Structural)]
pub struct AxFailureState {
    pub current: Option<AxFailure>,
}

impl Default for AxFailureState {
    fn default() -> (state: AxFailureState)
        ensures
            state.current is None,
    {
        AxFailureState { current: None }
    }
}

impl AxFailureState {
    /// The state once a call failed.
    pub open spec fn failed(site: AxRecoverySite) -> AxFailureState {
        AxFailureState { current: Some(AxFailure { site, phase: site.spec_phase() }) }
    }

    /// The state once a call succeeded: its own failure ends, another stays.
    pub open spec fn recovered(self, site: AxRecoverySite) -> AxFailureState {
        if self.current matches Some(failure) && failure.site == site {
            AxFailureState { current: None }
        } else {
            self
        }
    }

    /// The failure reported now.
    pub fn current(&self) -> (failure: Option<AxFailure>)
        ensures
            failure == self.current,
    {
        self.current
    }

    /// A call failed.
    pub fn record(&mut self, site: AxRecoverySite)
        ensures
            *final(self) == AxFailureState::failed(site),
    {
        self.current = Some(AxFailure { site, phase: site.phase() });
    }

    /// A call succeeded.
    pub fn recover(&mut self, site: AxRecoverySite)
        ensures
            *final(self) == old(self).recovered(site),
    {
        let ended = match self.current {
            Some(failure) => failure.site == site,
            None => false,
        };
        if ended {
            self.current = None;
        }
    }
}

/// A failure ends with the success of its own call and of no other.
pub proof fn law_failure_ends_at_its_own_site(
    failed: AxRecoverySite,
    recovered: AxRecoverySite,
)
    ensures
        AxFailureState::failed(failed).recovered(recovered).current is None <==> failed
            == recovered,
{
}

/// A failure is remembered by the place it happened at, and only success at that place ends it.
pub proof fn law_failures_are_remembered_by_place(
    failed: Subject<AxFailureState>,
    site: AxRecoverySite,
    recovered: Subject<AxFailureState>,
    phase: AxFailurePhase,
)
    requires
        call_ensures(AxFailureState::record, (failed.on, site), ()),
        call_ensures(AxFailureState::recover, (recovered.on, site), ()),
        call_ensures(AxRecoverySite::phase, (site,), phase),
    ensures
        final(failed.on).current is Some,
        final(failed.on).current->0.site == site && final(failed.on).current->0.phase == phase,
        phase is Observer <==> site is ApplicationRole,
        old(recovered.on).current matches Some(failure) ==> (final(recovered.on).current is None
            <==> failure.site == site),
        old(recovered.on).current is None ==> final(recovered.on).current is None,
        final(recovered.on).current is Some ==> *final(recovered.on) == *old(recovered.on),
{
}

} // verus!
