//! The errors and results of the chat control layer.
use vstd::prelude::*;

use crate::chat::submission::{ThreadCreated, ThreadSwitched, TurnStarted};
use crate::text::push_str;

verus! {

/// Why a control action failed.
#[derive(Debug, PartialEq, Eq)]
pub enum ControlError {
    /// The input was invalid.
    InvalidInput(String),
    /// What the action names was not found.
    NotFound(String),
    /// The action conflicts with the current state.
    Conflict(String),
    /// The action cannot be served now.
    Unavailable(String),
    /// Something failed inside.
    Internal(String),
}

/// The text of a control error: a prefix naming its kind, then its message.
pub open spec fn control_error_text(e: ControlError) -> Seq<char> {
    match e {
        ControlError::InvalidInput(m) => "Invalid input: "@ + m@,
        ControlError::NotFound(m) => "Not found: "@ + m@,
        ControlError::Conflict(m) => "Conflict: "@ + m@,
        ControlError::Unavailable(m) => "Unavailable: "@ + m@,
        ControlError::Internal(m) => "Internal error: "@ + m@,
    }
}

impl ControlError {
    /// The text of this error.
    pub fn to_string(&self) -> (r: String)
        ensures
            r@ == control_error_text(*self),
    {
        let mut out = String::new();
        match self {
            ControlError::InvalidInput(m) => {
                push_str(&mut out, "Invalid input: ");
                push_str(&mut out, m.as_str());
            },
            ControlError::NotFound(m) => {
                push_str(&mut out, "Not found: ");
                push_str(&mut out, m.as_str());
            },
            ControlError::Conflict(m) => {
                push_str(&mut out, "Conflict: ");
                push_str(&mut out, m.as_str());
            },
            ControlError::Unavailable(m) => {
                push_str(&mut out, "Unavailable: ");
                push_str(&mut out, m.as_str());
            },
            ControlError::Internal(m) => {
                push_str(&mut out, "Internal error: ");
                push_str(&mut out, m.as_str());
            },
        }
        out
    }
}

/// The result of a control action.
#[derive(Debug)]
pub enum SubmissionResult {
    TurnStarted(TurnStarted),
    ThreadCreated(ThreadCreated),
    ThreadSwitched(ThreadSwitched),
    Cancelled,
    PermissionResolved,
}

} // verus!
