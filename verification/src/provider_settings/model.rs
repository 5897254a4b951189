//! The shapes of provider profiles.
use vstd::prelude::*;

use crate::text::str_eq;

verus! {

/// The kind of API a provider speaks.
#[derive(Debug, Clone, Copy, PartialEq, Eq, Structural)]
pub enum ProviderKind {
    OpenAiCompatible,
}

/// The stored name of a provider kind.
pub open spec fn provider_kind_name(k: ProviderKind) -> Seq<char> {
    match k {
        ProviderKind::OpenAiCompatible => "openai_compatible"@,
    }
}

impl ProviderKind {
    /// The stored name of this kind.
    pub fn as_str(self) -> (r: &'static str)
        ensures
            r@ == provider_kind_name(self),
    {
        match self {
            ProviderKind::OpenAiCompatible => "openai_compatible",
        }
    }

    /// The kind with a stored name, if any.
    pub fn parse(value: &str) -> (r: Option<ProviderKind>)
        ensures
            r matches Some(k) ==> provider_kind_name(k) == value@,
            r is None ==> forall|k: ProviderKind| provider_kind_name(k) != value@,
    {
        if str_eq(value, "openai_compatible") {
            Some(ProviderKind::OpenAiCompatible)
        } else {
            None
        }
    }
}

/// Reading back the stored name of a kind gives the kind.
pub proof fn lemma_provider_kind_name_injective(a: ProviderKind, b: ProviderKind)
    ensures
        provider_kind_name(a) == provider_kind_name(b) ==> a == b,
{
}

/// A profile as listed to the user.
#[derive(Debug, Clone, PartialEq, Eq)]
pub struct ProviderProfileSummary {
    pub id: String,
    pub provider_kind: ProviderKind,
    pub name: String,
    pub base_url: String,
    pub model: String,
    pub is_default: bool,
}

/// A request to save a profile: a new one where `id` is absent.
#[derive(Debug, Clone, PartialEq, Eq)]
pub struct SaveProviderProfileInput {
    pub id: Option<String>,
    pub name: String,
    pub base_url: String,
    pub model: String,
    pub api_key: Option<String>,
    pub is_default: bool,
}

/// A request to test a provider connection.
#[derive(Debug, Clone, PartialEq, Eq)]
pub struct TestProviderProfileInput {
    pub base_url: String,
    pub model: String,
    pub api_key: String,
}

/// The outcome of a connection test.
#[derive(Debug, Clone, PartialEq, Eq)]
pub struct ProviderConnectionResult {
    pub success: bool,
    pub message: String,
}

/// What a turn needs to reach the default provider.
#[derive(Debug, Clone, PartialEq, Eq)]
pub struct ProviderRuntimeConfig {
    pub base_url: String,
    pub model: String,
    pub api_key: String,
}

/// A stored profile, its API key sealed.
#[derive(Debug, Clone, PartialEq, Eq)]
pub struct ProviderProfileRecord {
    pub id: String,
    pub provider_kind: ProviderKind,
    pub name: String,
    pub base_url: String,
    pub model: String,
    pub api_key_ciphertext: Vec<u8>,
    pub api_key_nonce: Vec<u8>,
    pub is_default: bool,
    pub created_at: String,
    pub updated_at: String,
}

/// Whether `s` lists record `r`.
pub open spec fn summarizes_record(r: ProviderProfileRecord, s: ProviderProfileSummary) -> bool {
    &&& s.id == r.id
    &&& s.provider_kind == r.provider_kind
    &&& s.name == r.name
    &&& s.base_url == r.base_url
    &&& s.model == r.model
    &&& s.is_default == r.is_default
}

impl ProviderProfileRecord {
    /// The listing of this profile.
    pub fn summary(&self) -> (s: ProviderProfileSummary)
        ensures
            summarizes_record(*self, s),
    {
        ProviderProfileSummary {
            id: self.id.clone(),
            provider_kind: self.provider_kind,
            name: self.name.clone(),
            base_url: self.base_url.clone(),
            model: self.model.clone(),
            is_default: self.is_default,
        }
    }
}

} // verus!
