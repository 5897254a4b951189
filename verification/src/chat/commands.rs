//! The answers the front end gives to permission requests.
use vstd::prelude::*;

use crate::chat::submission::PermissionDecision;

verus! {

/// A permission answer as the front end sends it.
#[derive(Debug, Clone, Copy, PartialEq, Eq, Structural)]
pub enum ResolveTurnPermissionDecision {
    Allow,
    Deny,
}

impl ResolveTurnPermissionDecision {
    /// The decision handed to the turn: allow for allow, deny for deny.
    pub fn into_permission_decision(self) -> (r: PermissionDecision)
        ensures
            (self == ResolveTurnPermissionDecision::Allow) == (r == PermissionDecision::Allow),
            (self == ResolveTurnPermissionDecision::Deny) == (r == PermissionDecision::Deny),
    {
        match self {
            ResolveTurnPermissionDecision::Allow => PermissionDecision::Allow,
            ResolveTurnPermissionDecision::Deny => PermissionDecision::Deny,
        }
    }
}

} // verus!
