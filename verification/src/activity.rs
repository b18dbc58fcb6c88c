//! Validation of session-wide input recency.

use vstd::prelude::*;

use crate::schema::DoubleBits;

verus! {

/// A recency that the system must not report.
#[derive(Clone, Copy, Debug, PartialEq)]
pub enum ActivityError {
    NonFinite { seconds: DoubleBits },
    Negative { seconds: DoubleBits },
}

impl ActivityError {
    pub open spec fn spec_message(self) -> Seq<char> {
        match self {
            ActivityError::NonFinite { .. } => "input recency is not finite: "@,
            ActivityError::Negative { .. } => "input recency is negative: "@,
        }
    }

    /// What went wrong; the number follows.
    pub fn message(self) -> (message: &'static str)
        ensures
            message@ == self.spec_message(),
    {
        match self {
            ActivityError::NonFinite { .. } => "input recency is not finite: ",
            ActivityError::Negative { .. } => "input recency is negative: ",
        }
    }
}

/// Accepts a finite number of seconds that is not below zero.
pub fn validate_seconds(seconds: DoubleBits) -> (validated: Result<DoubleBits, ActivityError>)
    ensures
        validated == if !seconds.finite() {
            Err(ActivityError::NonFinite { seconds })
        } else if seconds.negative() && seconds.spec_magnitude() != 0 {
            Err(ActivityError::Negative { seconds })
        } else {
            Ok(seconds)
        },
{
    if !seconds.is_finite() {
        Err(ActivityError::NonFinite { seconds })
    } else if seconds.is_negative() && seconds.magnitude().bits != 0 {
        Err(ActivityError::Negative { seconds })
    } else {
        Ok(seconds)
    }
}

/// Seconds are accepted, unchanged, exactly where they are finite and not below zero; zero is accepted
/// with either sign.
pub proof fn law_recency_is_finite_and_not_negative(
    seconds: DoubleBits,
    validated: Result<DoubleBits, ActivityError>,
)
    requires
        call_ensures(validate_seconds, (seconds,), validated),
    ensures
        validated matches Ok(accepted) ==> accepted == seconds && seconds.finite(),
        validated matches Err(error) ==> (error is NonFinite <==> !seconds.finite()),
        validated is Ok <==> seconds.finite() && !(seconds.negative() && seconds.spec_magnitude() != 0),
{
}

} // verus!
