//! The logic of the ArgusX desktop app and its cookie gateway: LLM runtime
//! settings, sealed secrets, provider profiles, stored chat and runtime
//! configuration, conversations and their turns, and the cookie gateway's
//! store, endpoints and fetch tool.
use vstd::prelude::*;

pub mod agent_profiles;
pub mod catalog;
pub mod chat;
pub mod cookie_gateway;
pub mod llm_runtime_config;
pub mod persistence;
pub mod primitives;
pub mod protocol;
pub mod provider_settings;
pub mod secure_config;
pub mod system_prompt;
pub mod text;

verus! {
}
