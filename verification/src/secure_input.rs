//! Secure-input probing that fails closed.

use vstd::prelude::*;

use crate::channel;
use crate::channel::count_up;
use crate::subject::Subject;

verus! {

/// How long a probe waits for the monitor, in nanoseconds.
pub const SECURE_INPUT_QUERY_TIMEOUT: u64 = 150_000_000;

/// Why a probe got no answer.
#[derive(Clone, Copy, Debug, PartialEq, Eq, Structural)]
pub enum SecureInputProbeError {
    Disconnected,
    Timeout,
}

impl SecureInputProbeError {
    pub open spec fn spec_name(self) -> Seq<char> {
        match self {
            SecureInputProbeError::Disconnected => "disconnected"@,
            SecureInputProbeError::Timeout => "timeout"@,
        }
    }

    pub open spec fn spec_message(self) -> Seq<char> {
        match self {
            SecureInputProbeError::Disconnected => "Secure Input monitor is unavailable"@,
            SecureInputProbeError::Timeout => "Secure Input query timed out"@,
        }
    }

    /// A short name for diagnostics.
    pub fn name(self) -> (name: &'static str)
        ensures
            name@ == self.spec_name(),
    {
        match self {
            SecureInputProbeError::Disconnected => "disconnected",
            SecureInputProbeError::Timeout => "timeout",
        }
    }

    /// What went wrong.
    pub fn message(self) -> (message: &'static str)
        ensures
            message@ == self.spec_message(),
    {
        match self {
            SecureInputProbeError::Disconnected => "Secure Input monitor is unavailable",
            SecureInputProbeError::Timeout => "Secure Input query timed out",
        }
    }
}

/// The monitor could not be started.
#[derive(Debug, PartialEq, Eq)]
pub struct SecureInputMonitorError {
    pub source: String,
}

impl SecureInputMonitorError {
    pub open spec fn spec_message(self) -> Seq<char> {
        "failed to start the Secure Input monitor: "@ + self.source@
    }

    /// What went wrong, with the reason that the system gave.
    pub fn message(&self) -> (message: String)
        ensures
            message@ == self.spec_message(),
    {
        let mut message = "failed to start the Secure Input monitor: ".to_owned();
        message.append(self.source.as_str());
        message
    }
}

/// What came of sending a query to the monitor and waiting for its reply.
#[derive(Clone, Copy, Debug, PartialEq, Eq, Structural)]
pub enum QueryOutcome {
    /// The monitor no longer takes queries.
    NotSent,
    /// The monitor answered in time.
    Replied(bool),
    /// The monitor took the query and went away.
    ReplyLost,
    /// No answer came in time.
    TimedOut,
}

/// Access to the monitor that owns the secure-input query.
#[derive(Clone, Copy, Debug, PartialEq, Eq, Structural)]
pub struct SecureInputProbe {}

impl SecureInputProbe {
    pub open spec fn spec_enabled(outcome: QueryOutcome) -> Result<bool, SecureInputProbeError> {
        match outcome {
            QueryOutcome::NotSent => Err(SecureInputProbeError::Disconnected),
            QueryOutcome::Replied(enabled) => Ok(enabled),
            QueryOutcome::ReplyLost => Err(SecureInputProbeError::Disconnected),
            QueryOutcome::TimedOut => Err(SecureInputProbeError::Timeout),
        }
    }

    /// Whether secure input is on, as far as the monitor answered.
    pub fn enabled(&self, outcome: QueryOutcome) -> (enabled: Result<bool, SecureInputProbeError>)
        ensures
            enabled == SecureInputProbe::spec_enabled(outcome),
    {
        match outcome {
            QueryOutcome::NotSent => Err(SecureInputProbeError::Disconnected),
            QueryOutcome::Replied(enabled) => Ok(enabled),
            QueryOutcome::ReplyLost => Err(SecureInputProbeError::Disconnected),
            QueryOutcome::TimedOut => Err(SecureInputProbeError::Timeout),
        }
    }
}

/// Whether secure input counts as on: without an answer it does.
pub open spec fn counts_as_secure(answer: Option<Result<bool, SecureInputProbeError>>) -> bool {
    answer matches Some(Ok(enabled)) ==> enabled
}

/// Whether secure input counts as on while text is captured. Without text
/// capture the probe is not asked; a failed probe is counted and counts as on.
/// A missing probe counts as on, and is counted where `count_missing` says so.
pub fn secure_input_active<P: FnOnce() -> Result<bool, SecureInputProbeError>>(
    capture_text_content: bool,
    probe: Option<P>,
    count_missing: bool,
    degraded_operations: &mut u64,
) -> (active: bool)
    requires
        capture_text_content ==> (probe matches Some(ask) ==> call_requires(ask, ())),
    ensures
        !capture_text_content ==> !active && *final(degraded_operations) == *old(
            degraded_operations,
        ),
        capture_text_content && probe is None ==> active && *final(degraded_operations)
            == if count_missing {
            channel::next_count(*old(degraded_operations))
        } else {
            *old(degraded_operations)
        },
        capture_text_content && probe is Some ==> exists|answer: Result<
            bool,
            SecureInputProbeError,
        >|
            {
                &&& #[trigger] call_ensures(probe->0, (), answer)
                &&& active == counts_as_secure(Some(answer))
                &&& *final(degraded_operations) == if answer is Err {
                    channel::next_count(*old(degraded_operations))
                } else {
                    *old(degraded_operations)
                }
            },
{
    if !capture_text_content {
        return false;
    }
    match probe {
        None => {
            if count_missing {
                *degraded_operations = count_up(*degraded_operations);
            }
            true
        },
        Some(ask) => match ask() {
            Ok(enabled) => enabled,
            Err(_) => {
                *degraded_operations = count_up(*degraded_operations);
                true
            },
        },
    }
}

/// Whether secure input counts as on for the tap, where no failure is counted.
pub fn tap_secure_input<P: FnOnce() -> Result<bool, SecureInputProbeError>>(
    capture_text_content: bool,
    probe: Option<P>,
) -> (active: bool)
    requires
        capture_text_content ==> (probe matches Some(ask) ==> call_requires(ask, ())),
    ensures
        !capture_text_content ==> !active,
        capture_text_content && probe is None ==> active == counts_as_secure(None),
        capture_text_content && probe is Some ==> exists|answer: Result<
            bool,
            SecureInputProbeError,
        >| #[trigger]
            call_ensures(probe->0, (), answer) && active == counts_as_secure(Some(answer)),
{
    if !capture_text_content {
        return false;
    }
    match probe {
        None => true,
        Some(ask) => match ask() {
            Ok(enabled) => enabled,
            Err(_) => true,
        },
    }
}

/// Only an answer that secure input is off lifts the suppression.
pub proof fn law_secure_input_fails_closed(outcome: QueryOutcome)
    ensures
        counts_as_secure(None),
        counts_as_secure(Some(SecureInputProbe::spec_enabled(outcome))) <==> outcome
            != QueryOutcome::Replied(false),
{
}

/// Where text is captured, secure input counts as on unless the monitor answered that it is off; a
/// failed answer is counted, and a missing monitor where that is asked for. Where no text is
/// captured nobody is asked and nothing is counted.
pub proof fn law_only_an_answer_rules_out_secure_input<
    P: FnOnce() -> Result<bool, SecureInputProbeError>,
>(
    capture_text_content: bool,
    probe: Option<P>,
    count_missing: bool,
    degraded: Subject<u64>,
    active: bool,
    tap_active: bool,
)
    requires
        call_ensures(
            secure_input_active::<P>,
            (capture_text_content, probe, count_missing, degraded.on),
            active,
        ),
        call_ensures(tap_secure_input::<P>, (capture_text_content, probe), tap_active),
        *degraded.on < u64::MAX,
    ensures
        !capture_text_content ==> !active && !tap_active && *final(degraded.on) == *old(
            degraded.on,
        ),
        capture_text_content && !active ==> probe is Some && call_ensures(
            probe->0,
            (),
            Ok::<bool, SecureInputProbeError>(false),
        ) && *final(degraded.on) == *old(degraded.on),
        capture_text_content && !tap_active ==> probe is Some && call_ensures(
            probe->0,
            (),
            Ok::<bool, SecureInputProbeError>(false),
        ),
        capture_text_content && probe is None ==> active && tap_active && *final(degraded.on)
            == *old(degraded.on) + if count_missing {
            1int
        } else {
            0
        },
        capture_text_content && active && probe is Some && *final(degraded.on) == *old(degraded.on)
            ==> call_ensures(probe->0, (), Ok::<bool, SecureInputProbeError>(true)),
{
}

/// What the monitor answered is the answer; a query that it did not take or did not answer is a
/// lost connection, and a late one has run out of time.
pub proof fn law_unanswered_queries_fail(
    probe: SecureInputProbe,
    outcome: QueryOutcome,
    enabled: Result<bool, SecureInputProbeError>,
)
    requires
        call_ensures(SecureInputProbe::enabled, (&probe, outcome), enabled),
    ensures
        enabled is Ok <==> outcome is Replied,
        enabled matches Ok(answer) ==> outcome == QueryOutcome::Replied(answer),
        enabled == Err::<bool, SecureInputProbeError>(SecureInputProbeError::Timeout) <==> outcome
            is TimedOut,
        enabled == Err::<bool, SecureInputProbeError>(SecureInputProbeError::Disconnected)
            <==> outcome is NotSent || outcome is ReplyLost,
{
}

} // verus!
