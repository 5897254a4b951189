//! Provider profiles of the desktop app: their shapes, the sealing of their
//! API keys, and the rules that saving, deleting and testing a profile follow.
use vstd::prelude::*;

pub mod crypto;
pub mod model;
pub mod service;

verus! {

/// Why a provider settings operation failed; each variant carries its
/// message.
#[derive(Debug, PartialEq, Eq)]
pub enum ProviderSettingsError {
    Validation(String),
    NotFound(String),
    SecureStorage(String),
    Crypto(String),
    Database(String),
    Network(String),
}

impl ProviderSettingsError {
    /// The message of this error.
    pub fn to_string(&self) -> (r: String)
        ensures
            r@ == provider_error_message(*self),
    {
        match self {
            ProviderSettingsError::Validation(m) => m.clone(),
            ProviderSettingsError::NotFound(m) => m.clone(),
            ProviderSettingsError::SecureStorage(m) => m.clone(),
            ProviderSettingsError::Crypto(m) => m.clone(),
            ProviderSettingsError::Database(m) => m.clone(),
            ProviderSettingsError::Network(m) => m.clone(),
        }
    }
}

/// The message of a provider settings error.
pub open spec fn provider_error_message(e: ProviderSettingsError) -> Seq<char> {
    match e {
        ProviderSettingsError::Validation(m) => m@,
        ProviderSettingsError::NotFound(m) => m@,
        ProviderSettingsError::SecureStorage(m) => m@,
        ProviderSettingsError::Crypto(m) => m@,
        ProviderSettingsError::Database(m) => m@,
        ProviderSettingsError::Network(m) => m@,
    }
}

} // verus!
