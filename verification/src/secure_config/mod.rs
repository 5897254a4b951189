//! Secrets kept in configuration: a key derived from the host's fingerprint,
//! and secrets sealed with it into versioned envelopes.
pub mod crypto;
pub mod host_fingerprint;
