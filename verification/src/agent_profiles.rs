//! The agent profiles offered to the user.
use vstd::prelude::*;

verus! {

/// An agent profile as listed: its id, label and description.
#[derive(Debug, Clone, PartialEq, Eq)]
pub struct AgentProfileSummary {
    pub id: String,
    pub label: String,
    pub description: String,
}

impl AgentProfileSummary {
    /// The listing of a profile from its id, display name and description.
    pub fn from_profile(id: String, display_name: String, description: String) -> (r: AgentProfileSummary)
        ensures
            r.id == id,
            r.label == display_name,
            r.description == description,
    {
        AgentProfileSummary { id, label: display_name, description }
    }
}

} // verus!
