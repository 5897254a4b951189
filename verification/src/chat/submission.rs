//! The control actions a user can ask of the desktop chat, and their results.
use vstd::prelude::*;

use crate::chat::events::{HydratedChatTurn, TurnTargetKind};

verus! {

#[verifier::external_type_specification]
#[verifier::external_body]
pub struct ExUuid(uuid::Uuid);

/// The answer to a tool's request for permission.
#[derive(Debug, Clone, Copy, PartialEq, Eq, Structural)]
pub enum PermissionDecision {
    Allow,
    Deny,
}

/// A control action of the desktop chat.
#[derive(Debug, PartialEq, Eq)]
pub enum Submission {
    /// Submit a prompt to the active thread.
    Prompt { text: String },
    /// Create a thread, with an optional title.
    NewThread { title: Option<String> },
    /// Make another thread the active one.
    SwitchThread { thread_id: uuid::Uuid },
    /// Cancel a running turn.
    CancelTurn { turn_id: String },
    /// Answer a permission request of a turn.
    ResolvePermission { turn_id: String, request_id: String, decision: PermissionDecision },
}

/// What a prompt turn is started with.
#[derive(Debug, Clone, PartialEq, Eq)]
pub struct PromptInput {
    pub text: String,
    pub target_kind: TurnTargetKind,
    pub target_id: String,
}

/// A started turn.
#[derive(Debug, Clone, PartialEq, Eq)]
pub struct TurnStarted {
    pub turn_id: String,
}

/// A created thread.
#[derive(Debug, PartialEq, Eq)]
pub struct ThreadCreated {
    pub thread_id: uuid::Uuid,
}

/// The history of a thread, turn by turn.
#[derive(Debug, PartialEq, Eq)]
pub struct ThreadHistoryLoaded {
    pub thread_id: uuid::Uuid,
    pub turns: Vec<HydratedChatTurn>,
}

/// The thread switched to.
#[derive(Debug, PartialEq, Eq)]
pub struct ThreadSwitched {
    pub thread_id: uuid::Uuid,
}

} // verus!
