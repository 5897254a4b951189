//! The error of conversation operations.
use vstd::prelude::*;

use crate::primitives::random_unavailable_message;
use crate::text::owned;

verus! {

/// Why a conversation operation did not take place.
#[derive(Debug, PartialEq, Eq)]
pub enum TurnError {
    /// The operation was refused or failed; the message says why.
    Runtime(String),
}

impl TurnError {
    /// The message of this error.
    pub fn message(&self) -> (r: &String)
        ensures
            self matches TurnError::Runtime(m) && *r == m,
    {
        match self {
            TurnError::Runtime(m) => m,
        }
    }
}

/// Whether `r` is the refusal given where no fresh id could be drawn
/// because the system's random source failed.
pub open spec fn is_random_failure<T>(r: Result<T, TurnError>) -> bool {
    r matches Err(TurnError::Runtime(m)) && m@ == random_unavailable_message()
}

/// The refusal given where the system's random source failed.
pub fn random_unavailable() -> (e: TurnError)
    ensures
        e matches TurnError::Runtime(m) && m@ == random_unavailable_message(),
{
    TurnError::Runtime(owned("the system's random source is unavailable"))
}

} // verus!
