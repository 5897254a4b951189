//! The runtime configuration as stored: one row per provider with its models
//! as JSON and its API key sealed under the host's key, and the default
//! provider's id. Saving normalizes the configuration first; loading reads
//! the rows back and normalizes again.
use vstd::prelude::*;

use crate::llm_runtime_config::{
    adapter_id, empty_provider, normalize_provider, normalize_runtime_config, normalized_default, pair_view,
    provider_view, strs, HeaderPair, LlmRuntimeConfig, ProviderId, ProviderRuntimeConfig,
    ProviderView,
};
use crate::primitives::{json_of_strings, random_bytes, strings_from_json, strings_of_json, strings_to_json,
    AES_GCM_MAX_PLAINTEXT};
use crate::primitives::{aes256gcm_open, b64_url_decode, b64_url_encode};
use crate::secure_config::crypto::{
    crypto_error_text, decrypt_secret, derive_key_from_fingerprint, seal_with_nonce,
    fingerprint_key, header_accepted, is_opening, is_sealed, CipherEnvelope, CryptoError,
};
use vstd::utf8::{decode_utf8, valid_utf8};
use crate::text::{is_blank, owned, push_str, str_eq, trim};
use vstd::utf8::encode_utf8;

verus! {

/// Why the runtime configuration could not be saved or loaded.
#[derive(Debug, PartialEq, Eq)]
pub enum RuntimeConfigRepoError {
    Schema(String),
    Sqlite(String),
    Serde(String),
    HostFingerprint(String),
    Crypto(CryptoError),
    FingerprintMismatch,
    InvalidProviderId(String),
}

/// The text of a repository error.
pub open spec fn repo_error_text(e: RuntimeConfigRepoError) -> Seq<char> {
    match e {
        RuntimeConfigRepoError::Schema(m) => "schema error: "@ + m@,
        RuntimeConfigRepoError::Sqlite(m) => "sqlite error: "@ + m@,
        RuntimeConfigRepoError::Serde(m) => "serde error: "@ + m@,
        RuntimeConfigRepoError::HostFingerprint(m) => "failed to load host fingerprint: "@ + m@,
        RuntimeConfigRepoError::Crypto(c) => "crypto error: "@ + crypto_error_text(c),
        RuntimeConfigRepoError::FingerprintMismatch => "stored config bound to different machine fingerprint"@,
        RuntimeConfigRepoError::InvalidProviderId(id) => "invalid provider id in storage: "@ + id@,
    }
}

impl RuntimeConfigRepoError {
    /// The text of this error.
    pub fn to_string(&self) -> (r: String)
        ensures
            r@ == repo_error_text(*self),
    {
        let mut out = String::new();
        match self {
            RuntimeConfigRepoError::Schema(m) => {
                push_str(&mut out, "schema error: ");
                push_str(&mut out, m.as_str());
            },
            RuntimeConfigRepoError::Sqlite(m) => {
                push_str(&mut out, "sqlite error: ");
                push_str(&mut out, m.as_str());
            },
            RuntimeConfigRepoError::Serde(m) => {
                push_str(&mut out, "serde error: ");
                push_str(&mut out, m.as_str());
            },
            RuntimeConfigRepoError::HostFingerprint(m) => {
                push_str(&mut out, "failed to load host fingerprint: ");
                push_str(&mut out, m.as_str());
            },
            RuntimeConfigRepoError::Crypto(c) => {
                push_str(&mut out, "crypto error: ");
                let t = c.to_string();
                push_str(&mut out, t.as_str());
            },
            RuntimeConfigRepoError::FingerprintMismatch => {
                push_str(&mut out, "stored config bound to different machine fingerprint");
            },
            RuntimeConfigRepoError::InvalidProviderId(id) => {
                push_str(&mut out, "invalid provider id in storage: ");
                push_str(&mut out, id.as_str());
            },
        }
        out
    }
}

/// The runtime configuration store of a database file.
#[derive(Debug)]
pub struct RuntimeConfigRepo {
    db_path: String,
}

impl RuntimeConfigRepo {
    /// The path of the database file.
    pub closed spec fn path(&self) -> Seq<char> {
        self.db_path@
    }

    /// The store of the database at `db_path`, which the caller has opened
    /// and brought to the current schema.
    pub fn new(db_path: String) -> (r: RuntimeConfigRepo)
        ensures
            r.path() == db_path@,
    {
        RuntimeConfigRepo { db_path }
    }

    /// The path of the database file.
    pub fn db_path(&self) -> (r: &str)
        ensures
            r@ == self.path(),
    {
        self.db_path.as_str()
    }
}

/// The repository error for a failure to open a stored key.
pub open spec fn decrypt_failure(err: CryptoError) -> RuntimeConfigRepoError {
    if err == CryptoError::CipherOperation {
        RuntimeConfigRepoError::FingerprintMismatch
    } else {
        RuntimeConfigRepoError::Crypto(err)
    }
}

/// A decryption failure of the cipher itself means the key, and so the
/// machine, differs; other crypto errors are kept.
pub fn map_decrypt_error(err: CryptoError) -> (r: RuntimeConfigRepoError)
    ensures
        r == decrypt_failure(err),
{
    match err {
        CryptoError::CipherOperation => RuntimeConfigRepoError::FingerprintMismatch,
        other => RuntimeConfigRepoError::Crypto(other),
    }
}

/// The provider whose adapter id is `id`, if any.
pub open spec fn provider_of(id: Seq<char>) -> Option<ProviderId> {
    if id == adapter_id(ProviderId::Bigmodel) {
        Some(ProviderId::Bigmodel)
    } else if id == adapter_id(ProviderId::Openai) {
        Some(ProviderId::Openai)
    } else if id == adapter_id(ProviderId::Anthropic) {
        Some(ProviderId::Anthropic)
    } else {
        None
    }
}

/// The provider with a stored id.
pub fn provider_from_id(value: &str) -> (r: Result<ProviderId, RuntimeConfigRepoError>)
    ensures
        (r is Ok) == (provider_of(value@) is Some),
        r matches Ok(p) ==> provider_of(value@) == Some(p),
        r matches Ok(p) ==> adapter_id(p) == value@,
        r matches Err(e) ==> (e matches RuntimeConfigRepoError::InvalidProviderId(id) && id@ == value@),
        r is Err ==> forall|p: ProviderId| adapter_id(p) != value@,
{
    proof {
        reveal_strlit("bigmodel");
        reveal_strlit("openai");
        reveal_strlit("anthropic");
    }
    if str_eq(value, "bigmodel") {
        Ok(ProviderId::Bigmodel)
    } else if str_eq(value, "openai") {
        Ok(ProviderId::Openai)
    } else if str_eq(value, "anthropic") {
        Ok(ProviderId::Anthropic)
    } else {
        Err(RuntimeConfigRepoError::InvalidProviderId(owned(value)))
    }
}

/// Sets the settings of one provider, leaving the others.
pub fn set_provider_config(config: &mut LlmRuntimeConfig, provider: &ProviderId, provider_config: ProviderRuntimeConfig)
    ensures
        provider_view(*final(config), *provider) == provider_config@,
        forall|q: ProviderId| q != *provider ==> provider_view(*final(config), q) == provider_view(*old(config), q),
        final(config).default_provider == old(config).default_provider,
{
    match provider {
        ProviderId::Bigmodel => config.providers.bigmodel = provider_config,
        ProviderId::Openai => config.providers.openai = provider_config,
        ProviderId::Anthropic => config.providers.anthropic = provider_config,
    }
}


/// A provider's row as read back: its stored id, base URL and models JSON,
/// its headers as parsed from their JSON (or the parse error), the text of
/// its sealed API key, and the envelope parsed from that text (or the parse
/// error; not looked at when the text is blank).
#[derive(Debug)]
pub struct StoredProviderRow {
    pub provider_id: String,
    pub base_url: String,
    pub models_json: String,
    pub headers: Result<Vec<HeaderPair>, String>,
    pub api_key_cipher_json: String,
    pub api_key_cipher: Result<CipherEnvelope, String>,
}

/// The secret that `e` opens to under `key`, when every check of opening
/// passes.
pub open spec fn opened_secret(key: Seq<u8>, e: CipherEnvelope) -> Option<Seq<char>> {
    let nb = b64_url_decode(e.nonce_b64@);
    let cb = b64_url_decode(e.ciphertext_b64@);
    if header_accepted(e) && nb is Ok && nb->Ok_0.len() == 12 && cb is Ok && aes256gcm_open(
        key,
        nb->Ok_0,
        cb->Ok_0,
    ) is Some && valid_utf8(aes256gcm_open(key, nb->Ok_0, cb->Ok_0)->0) {
        Some(decode_utf8(aes256gcm_open(key, nb->Ok_0, cb->Ok_0)->0))
    } else {
        None
    }
}

/// Whether a stored row loads under `key`: a known provider id, models that
/// parse, headers that parsed, and either no key or one that opens.
pub open spec fn row_loads(key: Seq<u8>, row: StoredProviderRow) -> bool {
    &&& provider_of(row.provider_id@) is Some
    &&& strings_of_json(row.models_json@) is Ok
    &&& row.headers is Ok
    &&& (trim(row.api_key_cipher_json@).len() == 0 || (row.api_key_cipher is Ok && opened_secret(
        key,
        row.api_key_cipher->Ok_0,
    ) is Some))
}

/// The settings that a loading row gives its provider.
pub open spec fn row_view(key: Seq<u8>, row: StoredProviderRow) -> ProviderView {
    ProviderView {
        api_key: if trim(row.api_key_cipher_json@).len() == 0 {
            Seq::empty()
        } else {
            opened_secret(key, row.api_key_cipher->Ok_0)->0
        },
        base_url: row.base_url@,
        models: strings_of_json(row.models_json@)->Ok_0,
        headers: row.headers->Ok_0@.map_values(|h: HeaderPair| pair_view(h)),
    }
}

/// Whether `e` is the error of loading `row`: the first failing step among
/// the provider id, the models, the headers, the envelope and its opening.
pub open spec fn row_fails_with(key: Seq<u8>, row: StoredProviderRow, e: RuntimeConfigRepoError) -> bool {
    if provider_of(row.provider_id@) is None {
        e matches RuntimeConfigRepoError::InvalidProviderId(id) && id@ == row.provider_id@
    } else if strings_of_json(row.models_json@) is Err {
        e matches RuntimeConfigRepoError::Serde(m) && m@ == strings_of_json(row.models_json@)->Err_0
    } else if row.headers is Err {
        e matches RuntimeConfigRepoError::Serde(m) && m@ == row.headers->Err_0@
    } else if trim(row.api_key_cipher_json@).len() == 0 {
        false
    } else if row.api_key_cipher is Err {
        e matches RuntimeConfigRepoError::Serde(m) && m@ == row.api_key_cipher->Err_0@
    } else {
        exists|c: CryptoError|
            #[trigger] is_opening(key, row.api_key_cipher->Ok_0, Err(c)) && e == decrypt_failure(c)
    }
}

/// The settings `v` as a store reads them back: a blank key comes back empty.
pub open spec fn as_loaded(v: ProviderView) -> ProviderView {
    ProviderView {
        api_key: if trim(v.api_key).len() == 0 {
            Seq::empty()
        } else {
            v.api_key
        },
        ..v
    }
}

/// Whether `row` holds the settings `v` of provider `p` as saving writes
/// them under `key`.
pub open spec fn stored_row_holds(key: Seq<u8>, row: StoredProviderRow, p: ProviderId, v: ProviderView) -> bool {
    &&& provider_of(row.provider_id@) == Some(p)
    &&& row.base_url@ == v.base_url
    &&& row.models_json@ == json_of_strings(v.models)
    &&& row.headers matches Ok(hs) && hs@.map_values(|h: HeaderPair| pair_view(h)) == v.headers
    &&& if trim(v.api_key).len() == 0 {
        trim(row.api_key_cipher_json@).len() == 0
    } else {
        &&& trim(row.api_key_cipher_json@).len() > 0
        &&& row.api_key_cipher matches Ok(e) && is_sealed(key, e, v.api_key)
    }
}

/// Reads one stored row back under `key`.
fn load_row(key: &[u8; 32], row: &StoredProviderRow) -> (r: Result<(ProviderId, ProviderRuntimeConfig), RuntimeConfigRepoError>)
    ensures
        (r is Ok) == row_loads(key@, *row),
        r matches Ok(t) ==> provider_of(row.provider_id@) == Some(t.0) && t.1@ == row_view(key@, *row),
        r matches Err(e) ==> row_fails_with(key@, *row, e),
        forall|p: ProviderId, v: ProviderView| #[trigger] stored_row_holds(key@, *row, p, v) ==> (r matches Ok(
            t,
        ) && t.1@ == as_loaded(v)),
{
    let provider = match provider_from_id(row.provider_id.as_str()) {
        Ok(p) => p,
        Err(e) => {
            return Err(e);
        },
    };
    let models = match strings_from_json(row.models_json.as_str()) {
        Ok(m) => m,
        Err(e) => {
            return Err(RuntimeConfigRepoError::Serde(e));
        },
    };
    let headers = match &row.headers {
        Ok(h) => copy_headers(h),
        Err(e) => {
            return Err(RuntimeConfigRepoError::Serde(owned(e.as_str())));
        },
    };
    let api_key = if is_blank(row.api_key_cipher_json.as_str()) {
        String::new()
    } else {
        match &row.api_key_cipher {
            Ok(env) => match decrypt_secret(key, env) {
                Ok(s) => s,
                Err(c) => {
                    proof {
                        assert(is_opening(key@, *env, Err(c)));
                    }
                    return Err(map_decrypt_error(c));
                },
            },
            Err(e) => {
                return Err(RuntimeConfigRepoError::Serde(owned(e.as_str())));
            },
        }
    };
    let cfg = ProviderRuntimeConfig { api_key, base_url: row.base_url.clone(), models, headers };
    proof {
        assert(cfg@ =~= row_view(key@, *row));
    }
    Ok((provider, cfg))
}


/// The settings provider `p` has after loading `rows` in order: those of
/// the last row for `p`, else none.
pub open spec fn loaded_provider(key: Seq<u8>, rows: Seq<StoredProviderRow>, p: ProviderId) -> ProviderView
    decreases rows.len(),
{
    if rows.len() == 0 {
        empty_provider()
    } else if provider_of(rows.last().provider_id@) == Some(p) {
        row_view(key, rows.last())
    } else {
        loaded_provider(key, rows.drop_last(), p)
    }
}

/// Whether a stored default provider id, if any, names a provider.
pub open spec fn default_ok(d: Option<String>) -> bool {
    match d {
        Some(s) => provider_of(s@) is Some,
        None => true,
    }
}

/// The provider a stored default id names.
pub open spec fn parsed_default(d: Option<String>) -> Option<ProviderId> {
    match d {
        Some(s) => provider_of(s@),
        None => None,
    }
}

/// Whether some row of `rows` is for provider `p`.
pub open spec fn rows_cover(rows: Seq<StoredProviderRow>, p: ProviderId) -> bool {
    exists|i: int| 0 <= i < rows.len() && provider_of((#[trigger] rows[i]).provider_id@) == Some(p)
}

/// Whether every row of `rows` holds, under `key`, the settings that `vs`
/// gives its provider.
pub open spec fn rows_hold(key: Seq<u8>, rows: Seq<StoredProviderRow>, vs: Map<ProviderId, ProviderView>) -> bool {
    forall|i: int|
        0 <= i < rows.len() ==> {
            &&& provider_of((#[trigger] rows[i]).provider_id@) is Some
            &&& vs.contains_key(provider_of(rows[i].provider_id@)->0)
            &&& stored_row_holds(
                key,
                rows[i],
                provider_of(rows[i].provider_id@)->0,
                vs[provider_of(rows[i].provider_id@)->0],
            )
        }
}

/// The settings that rows holding `vs` give provider `p`.
pub open spec fn held_view(rows: Seq<StoredProviderRow>, vs: Map<ProviderId, ProviderView>, p: ProviderId) -> ProviderView {
    if rows_cover(rows, p) {
        as_loaded(vs[p])
    } else {
        empty_provider()
    }
}

/// Rows that each load to what `vs` holds for their provider give every
/// provider what `vs` holds for it, or nothing where no row is for it.
proof fn lemma_loaded_is_held(
    key: Seq<u8>,
    rows: Seq<StoredProviderRow>,
    vs: Map<ProviderId, ProviderView>,
    p: ProviderId,
)
    requires
        forall|i: int|
            0 <= i < rows.len() ==> provider_of((#[trigger] rows[i]).provider_id@) is Some && row_view(
                key,
                rows[i],
            ) == as_loaded(vs[provider_of(rows[i].provider_id@)->0]),
    ensures
        loaded_provider(key, rows, p) == held_view(rows, vs, p),
    decreases rows.len(),
{
    if rows.len() > 0 {
        let prefix = rows.drop_last();
        assert forall|i: int| 0 <= i < prefix.len() implies provider_of(
            (#[trigger] prefix[i]).provider_id@,
        ) is Some && row_view(key, prefix[i]) == as_loaded(vs[provider_of(prefix[i].provider_id@)->0]) by {
            assert(prefix[i] == rows[i]);
        }
        lemma_loaded_is_held(key, prefix, vs, p);
        let last = rows.len() - 1;
        assert(rows[last] == rows.last());
        if provider_of(rows.last().provider_id@) == Some(p) {
            assert(rows_cover(rows, p));
        } else {
            if rows_cover(rows, p) {
                let i = choose|i: int| 0 <= i < rows.len() && provider_of((#[trigger] rows[i]).provider_id@) == Some(p);
                assert(i != last);
                assert(prefix[i] == rows[i]);
                assert(rows_cover(prefix, p));
            }
            if rows_cover(prefix, p) {
                let i = choose|i: int| 0 <= i < prefix.len() && provider_of((#[trigger] prefix[i]).provider_id@) == Some(p);
                assert(prefix[i] == rows[i]);
                assert(rows_cover(rows, p));
            }
        }
    }
}

/// Reads the runtime configuration back from its stored default provider id
/// and provider rows, under the key of a host fingerprint: nothing where
/// nothing is stored, else the configuration the rows give, normalized.
/// An unknown default id is refused first, then the first row that does not
/// load refuses with its own error. Rows that hold what saving wrote read
/// back the settings saved.
pub fn load_config(fingerprint: &str, default_provider: Option<String>, rows: Vec<StoredProviderRow>) -> (r: Result<
    Option<LlmRuntimeConfig>,
    RuntimeConfigRepoError,
>)
    ensures
        (r is Ok) == (default_ok(default_provider) && forall|i: int|
            0 <= i < rows@.len() ==> row_loads(fingerprint_key(fingerprint@), #[trigger] rows@[i])),
        !default_ok(default_provider) ==> (r matches Err(RuntimeConfigRepoError::InvalidProviderId(id))
            && id@ == default_provider->0@),
        default_ok(default_provider) && r is Err ==> exists|i: int|
            0 <= i < rows@.len() && (forall|j: int|
                0 <= j < i ==> row_loads(fingerprint_key(fingerprint@), #[trigger] rows@[j]))
                && !row_loads(fingerprint_key(fingerprint@), #[trigger] rows@[i]) && row_fails_with(
                fingerprint_key(fingerprint@),
                rows@[i],
                r->Err_0,
            ),
        r matches Ok(o) ==> (o is None <==> (rows@.len() == 0 && default_provider is None)),
        r matches Ok(Some(cfg)) ==> {
            &&& forall|p: ProviderId|
                #[trigger] provider_view(cfg, p) == normalize_provider(
                    loaded_provider(fingerprint_key(fingerprint@), rows@, p),
                )
            &&& cfg.default_provider == normalized_default(
                LlmRuntimeConfig { default_provider: parsed_default(default_provider), providers: cfg.providers },
            )
        },
        forall|vs: Map<ProviderId, ProviderView>|
            #[trigger] rows_hold(fingerprint_key(fingerprint@), rows@, vs) && default_ok(default_provider)
                ==> (r matches Ok(o) && (o matches Some(cfg) ==> forall|p: ProviderId|
                #[trigger] provider_view(cfg, p) == normalize_provider(held_view(rows@, vs, p)))),
{
    let key = match derive_key_from_fingerprint(fingerprint) {
        Ok(k) => k,
        Err(e) => {
            return Err(RuntimeConfigRepoError::Crypto(e));
        },
    };
    let ghost k = key@;
    let mut config = LlmRuntimeConfig::default();
    let ghost fresh = config;
    match &default_provider {
        Some(s) => match provider_from_id(s.as_str()) {
            Ok(p) => {
                config.default_provider = Some(p);
            },
            Err(e) => {
                return Err(e);
            },
        },
        None => {},
    }
    proof {
        assert(rows@.subrange(0, 0) =~= Seq::<StoredProviderRow>::empty());
        assert forall|q: ProviderId| #[trigger]
            provider_view(config, q) == loaded_provider(k, rows@.subrange(0, 0), q) by {
            assert(config.providers == fresh.providers);
            assert(provider_view(fresh, q) == empty_provider());
            assert(loaded_provider(k, rows@.subrange(0, 0), q) == empty_provider());
            match q {
                ProviderId::Bigmodel => {},
                ProviderId::Openai => {},
                ProviderId::Anthropic => {},
            }
        }
    }
    let mut i: usize = 0;
    while i < rows.len()
        invariant
            i <= rows@.len(),
            k == key@,
            k == fingerprint_key(fingerprint@),
            default_ok(default_provider),
            config.default_provider == parsed_default(default_provider),
            forall|j: int| 0 <= j < i ==> row_loads(k, #[trigger] rows@[j]),
            forall|j: int|
                0 <= j < i ==> provider_of((#[trigger] rows@[j]).provider_id@) is Some,
            forall|q: ProviderId|
                #[trigger] provider_view(config, q) == loaded_provider(k, rows@.subrange(0, i as int), q),
            forall|j: int, q: ProviderId, v: ProviderView|
                0 <= j < i && #[trigger] stored_row_holds(k, rows@[j], q, v) ==> row_view(k, rows@[j])
                    == as_loaded(v),
        decreases rows@.len() - i,
    {
        let ghost before = config;
        match load_row(&key, &rows[i]) {
            Ok(t) => {
                let (p, c) = t;
                set_provider_config(&mut config, &p, c);
                proof {
                    let next = rows@.subrange(0, i + 1);
                    assert(next.drop_last() =~= rows@.subrange(0, i as int));
                    assert(next.last() == rows@[i as int]);
                    assert forall|q: ProviderId| #[trigger]
                        provider_view(config, q) == loaded_provider(k, next, q) by {
                        if q != p {
                            assert(provider_view(config, q) == provider_view(before, q));
                        }
                    }
                }
            },
            Err(e) => {
                proof {
                    assert(!row_loads(k, rows@[i as int]));
                    assert forall|vs: Map<ProviderId, ProviderView>|
                        !#[trigger] rows_hold(k, rows@, vs) by {
                        if rows_hold(k, rows@, vs) {
                            let row = rows@[i as int];
                            let q = provider_of(row.provider_id@)->0;
                            assert(stored_row_holds(k, row, q, vs[q]));
                        }
                    }
                }
                return Err(e);
            },
        }
        i = i + 1;
    }
    proof {
        assert(rows@.subrange(0, rows@.len() as int) =~= rows@);
        assert forall|vs: Map<ProviderId, ProviderView>|
            #[trigger] rows_hold(k, rows@, vs) implies forall|q: ProviderId|
                loaded_provider(k, rows@, q) == held_view(rows@, vs, q) by {
            assert forall|j: int| 0 <= j < rows@.len() implies provider_of(
                (#[trigger] rows@[j]).provider_id@,
            ) is Some && row_view(k, rows@[j]) == as_loaded(vs[provider_of(rows@[j].provider_id@)->0]) by {
                let q = provider_of(rows@[j].provider_id@)->0;
                assert(stored_row_holds(k, rows@[j], q, vs[q]));
            }
            assert forall|q: ProviderId| loaded_provider(k, rows@, q) == held_view(rows@, vs, q) by {
                lemma_loaded_is_held(k, rows@, vs, q);
            }
        }
    }
    if rows.len() == 0 && config.default_provider.is_none() {
        return Ok(None);
    }
    let ghost loaded = config;
    let out = normalize_runtime_config(config);
    proof {
        assert forall|q: ProviderId| #[trigger]
            provider_view(out, q) == normalize_provider(provider_view(loaded, q)) by {
            match q {
                ProviderId::Bigmodel => {},
                ProviderId::Openai => {},
                ProviderId::Anthropic => {},
            }
        }
    }
    Ok(Some(out))
}

/// The order in which provider rows are written.
pub open spec fn provider_order() -> Seq<ProviderId> {
    seq![ProviderId::Bigmodel, ProviderId::Openai, ProviderId::Anthropic]
}

/// A provider's row to store: its base URL, its models as JSON, its headers
/// and its sealed API key (none for a blank key), which the caller writes.
#[derive(Debug)]
pub struct ProviderRow {
    pub provider: ProviderId,
    pub base_url: String,
    pub models_json: String,
    pub headers: Vec<HeaderPair>,
    pub api_key_cipher: Option<CipherEnvelope>,
}

/// Whether `row` stores the settings `v` of provider `p` under `key`.
pub open spec fn row_stores(key: Seq<u8>, row: ProviderRow, p: ProviderId, v: ProviderView) -> bool {
    &&& row.provider == p
    &&& row.base_url@ == v.base_url
    &&& row.models_json@ == json_of_strings(v.models)
    &&& row.headers@.map_values(|h: HeaderPair| pair_view(h)) == v.headers
    &&& if trim(v.api_key).len() == 0 {
        row.api_key_cipher is None
    } else {
        row.api_key_cipher matches Some(e) && is_sealed(key, e, v.api_key)
    }
}

/// What saving a configuration writes: the normalized configuration, the
/// default provider's id, and a row per provider.
#[derive(Debug)]
pub struct RuntimeConfigSave {
    pub normalized: LlmRuntimeConfig,
    pub default_provider: Option<String>,
    pub rows: Vec<ProviderRow>,
}

/// Whether every provider's normalized API key fits what AES-GCM seals.
pub open spec fn keys_sealable(cfg: LlmRuntimeConfig) -> bool {
    forall|p: ProviderId|
        encode_utf8(#[trigger] normalize_provider(provider_view(cfg, p)).api_key).len()
            <= AES_GCM_MAX_PLAINTEXT
}

/// A copy of a list of header pairs.
fn copy_headers(hs: &Vec<HeaderPair>) -> (r: Vec<HeaderPair>)
    ensures
        r@.map_values(|h: HeaderPair| pair_view(h)) == hs@.map_values(|h: HeaderPair| pair_view(h)),
{
    let mut r: Vec<HeaderPair> = Vec::new();
    let mut i: usize = 0;
    while i < hs.len()
        invariant
            i <= hs@.len(),
            r@.map_values(|h: HeaderPair| pair_view(h)) == hs@.subrange(0, i as int).map_values(
                |h: HeaderPair| pair_view(h),
            ),
        decreases hs@.len() - i,
    {
        let ghost before = r@;
        let c = hs[i].clone_pair();
        r.push(c);
        assert(r@ == before.push(c));
        assert(r@.map_values(|h: HeaderPair| pair_view(h)) =~= before.map_values(|h: HeaderPair| pair_view(h)).push(
            pair_view(hs@[i as int]),
        ));
        assert(hs@.subrange(0, i + 1).map_values(|h: HeaderPair| pair_view(h)) =~= hs@.subrange(0, i as int).map_values(
            |h: HeaderPair| pair_view(h),
        ).push(pair_view(hs@[i as int])));
        i = i + 1;
    }
    assert(hs@.subrange(0, hs@.len() as int) =~= hs@);
    r
}

/// The row that stores one provider's settings under `key`, its API key
/// sealed with `nonce` where it is not blank. A key too long for the cipher
/// is refused as a cipher failure.
fn provider_row(key: &[u8; 32], provider: ProviderId, cfg: &ProviderRuntimeConfig, nonce: &[u8]) -> (r: Result<
    ProviderRow,
    RuntimeConfigRepoError,
>)
    requires
        nonce@.len() == 12,
    ensures
        (r is Ok) == (trim(cfg@.api_key).len() == 0 || encode_utf8(cfg@.api_key).len() <= AES_GCM_MAX_PLAINTEXT),
        r matches Ok(row) ==> row_stores(key@, row, provider, cfg@),
        r matches Ok(row) ==> (row.api_key_cipher matches Some(e) ==> e.nonce_b64@ == b64_url_encode(nonce@)),
        r matches Err(e) ==> e == RuntimeConfigRepoError::Crypto(CryptoError::CipherOperation),
{
    let models_json = match strings_to_json(&cfg.models) {
        Ok(t) => t,
        Err(e) => {
            return Err(RuntimeConfigRepoError::Serde(e));
        },
    };
    let api_key_cipher = if is_blank(cfg.api_key.as_str()) {
        None
    } else {
        match seal_with_nonce(key, nonce, cfg.api_key.as_str()) {
            Ok(e) => Some(e),
            Err(e) => {
                return Err(RuntimeConfigRepoError::Crypto(e));
            },
        }
    };
    Ok(
        ProviderRow {
            provider,
            base_url: cfg.base_url.clone(),
            models_json,
            headers: copy_headers(&cfg.headers),
            api_key_cipher,
        },
    )
}

/// A normalized API key that is blank is empty, and so always fits the
/// cipher.
proof fn lemma_blank_normalized_key(k: Seq<char>)
    ensures
        trim(trim(k)).len() == 0 ==> encode_utf8(trim(k)).len() == 0,
{
    crate::text::lemma_trim_idempotent(k);
    if trim(trim(k)).len() == 0 {
        assert(trim(k).len() == 0);
    }
}

/// Whether `plan` is what saving `config` writes under `key`: the
/// configuration normalized, its default provider's id, and the row of each
/// provider in the order bigmodel, openai, anthropic.
pub open spec fn is_save_plan(config: LlmRuntimeConfig, key: Seq<u8>, plan: RuntimeConfigSave) -> bool {
    &&& forall|p: ProviderId|
        #[trigger] provider_view(plan.normalized, p) == normalize_provider(provider_view(config, p))
    &&& plan.normalized.default_provider == normalized_default(
        LlmRuntimeConfig { default_provider: config.default_provider, providers: plan.normalized.providers },
    )
    &&& match plan.normalized.default_provider {
        Some(p) => plan.default_provider matches Some(s) && s@ == adapter_id(p),
        None => plan.default_provider is None,
    }
    &&& plan.rows@.len() == 3
    &&& forall|i: int|
        0 <= i < 3 ==> row_stores(
            key,
            #[trigger] plan.rows@[i],
            provider_order()[i],
            provider_view(plan.normalized, provider_order()[i]),
        )
}

/// What saving a configuration under a host fingerprint writes, each
/// provider's API key sealed with the nonce of its place in `nonces` (12
/// bytes each): the configuration normalized, its default provider's id, and
/// the row of each provider in the order bigmodel, openai, anthropic, keys
/// sealed under the fingerprint's key. A key too long for the cipher is
/// refused as a cipher failure.
pub fn prepare_save_with_nonces(
    config: LlmRuntimeConfig,
    fingerprint: &str,
    nonces: &Vec<Vec<u8>>,
) -> (r: Result<RuntimeConfigSave, RuntimeConfigRepoError>)
    requires
        nonces@.len() == 3,
        forall|i: int| 0 <= i < 3 ==> (#[trigger] nonces@[i])@.len() == 12,
    ensures
        (r is Ok) == keys_sealable(config),
        r matches Err(e) ==> e == RuntimeConfigRepoError::Crypto(CryptoError::CipherOperation),
        r matches Ok(plan) ==> is_save_plan(config, fingerprint_key(fingerprint@), plan),
        r matches Ok(plan) ==> forall|i: int|
            0 <= i < 3 ==> ((#[trigger] plan.rows@[i]).api_key_cipher matches Some(e) ==> e.nonce_b64@
                == b64_url_encode(nonces@[i]@)),
{
    let ghost given = config;
    let normalized = normalize_runtime_config(config);
    let key = match derive_key_from_fingerprint(fingerprint) {
        Ok(k) => k,
        Err(e) => {
            return Err(RuntimeConfigRepoError::Crypto(e));
        },
    };
    let default_provider = match &normalized.default_provider {
        Some(p) => Some(owned(p.as_adapter_id())),
        None => None,
    };
    proof {
        assert(normalize_provider(provider_view(given, ProviderId::Bigmodel)) == provider_view(
            normalized,
            ProviderId::Bigmodel,
        ));
        assert(normalize_provider(provider_view(given, ProviderId::Openai)) == provider_view(
            normalized,
            ProviderId::Openai,
        ));
        assert(normalize_provider(provider_view(given, ProviderId::Anthropic)) == provider_view(
            normalized,
            ProviderId::Anthropic,
        ));
        lemma_blank_normalized_key(provider_view(given, ProviderId::Bigmodel).api_key);
        lemma_blank_normalized_key(provider_view(given, ProviderId::Openai).api_key);
        lemma_blank_normalized_key(provider_view(given, ProviderId::Anthropic).api_key);
        assert(keys_sealable(given) == (encode_utf8(
            normalize_provider(provider_view(given, ProviderId::Bigmodel)).api_key,
        ).len() <= AES_GCM_MAX_PLAINTEXT && encode_utf8(
            normalize_provider(provider_view(given, ProviderId::Openai)).api_key,
        ).len() <= AES_GCM_MAX_PLAINTEXT && encode_utf8(
            normalize_provider(provider_view(given, ProviderId::Anthropic)).api_key,
        ).len() <= AES_GCM_MAX_PLAINTEXT)) by {
            assert forall|p: ProviderId|
                encode_utf8(#[trigger] normalize_provider(provider_view(given, p)).api_key).len()
                    <= AES_GCM_MAX_PLAINTEXT <== (encode_utf8(
                    normalize_provider(provider_view(given, ProviderId::Bigmodel)).api_key,
                ).len() <= AES_GCM_MAX_PLAINTEXT && encode_utf8(
                    normalize_provider(provider_view(given, ProviderId::Openai)).api_key,
                ).len() <= AES_GCM_MAX_PLAINTEXT && encode_utf8(
                    normalize_provider(provider_view(given, ProviderId::Anthropic)).api_key,
                ).len() <= AES_GCM_MAX_PLAINTEXT) by {
                match p {
                    ProviderId::Bigmodel => {},
                    ProviderId::Openai => {},
                    ProviderId::Anthropic => {},
                }
            }
        }
    }
    let mut rows: Vec<ProviderRow> = Vec::new();
    let b = provider_row(
        &key,
        ProviderId::Bigmodel,
        normalized.provider(&ProviderId::Bigmodel),
        nonces[0].as_slice(),
    );
    match b {
        Ok(row) => rows.push(row),
        Err(e) => {
            return Err(e);
        },
    }
    let o = provider_row(&key, ProviderId::Openai, normalized.provider(&ProviderId::Openai), nonces[1].as_slice());
    match o {
        Ok(row) => rows.push(row),
        Err(e) => {
            return Err(e);
        },
    }
    let a = provider_row(
        &key,
        ProviderId::Anthropic,
        normalized.provider(&ProviderId::Anthropic),
        nonces[2].as_slice(),
    );
    match a {
        Ok(row) => rows.push(row),
        Err(e) => {
            return Err(e);
        },
    }
    proof {
        assert forall|p: ProviderId|
            #[trigger] provider_view(normalized, p) == normalize_provider(provider_view(given, p)) by {
            match p {
                ProviderId::Bigmodel => {},
                ProviderId::Openai => {},
                ProviderId::Anthropic => {},
            }
        }
    }
    Ok(RuntimeConfigSave { normalized, default_provider, rows })
}

/// What saving a configuration under a host fingerprint writes (see
/// `prepare_save_with_nonces`), with three nonces drawn from the system's
/// random source first; a failure of that source is reported as such.
pub fn prepare_save(config: LlmRuntimeConfig, fingerprint: &str) -> (r: Result<RuntimeConfigSave, RuntimeConfigRepoError>)
    ensures
        r matches Err(e) ==> e == RuntimeConfigRepoError::Crypto(CryptoError::CipherOperation) || e
            == RuntimeConfigRepoError::Crypto(CryptoError::RandomUnavailable),
        r == Err::<RuntimeConfigSave, RuntimeConfigRepoError>(
            RuntimeConfigRepoError::Crypto(CryptoError::CipherOperation),
        ) ==> !keys_sealable(config),
        !keys_sealable(config) ==> r is Err,
        r matches Ok(plan) ==> is_save_plan(config, fingerprint_key(fingerprint@), plan),
{
    let mut nonces: Vec<Vec<u8>> = Vec::new();
    let mut i: usize = 0;
    while i < 3
        invariant
            i <= 3,
            nonces@.len() == i,
            forall|j: int| 0 <= j < i ==> (#[trigger] nonces@[j])@.len() == 12,
        decreases 3 - i,
    {
        match random_bytes(12) {
            Some(n) => nonces.push(n),
            None => {
                return Err(RuntimeConfigRepoError::Crypto(CryptoError::RandomUnavailable));
            },
        }
        i = i + 1;
    }
    prepare_save_with_nonces(config, fingerprint, &nonces)
}

/// The adapter id of a provider reads back as that provider.
pub proof fn lemma_provider_of_adapter_id(p: ProviderId)
    ensures
        provider_of(adapter_id(p)) == Some(p),
{
    reveal_strlit("bigmodel");
    reveal_strlit("openai");
    reveal_strlit("anthropic");
    assert(adapter_id(ProviderId::Bigmodel).len() == 8);
    assert(adapter_id(ProviderId::Openai).len() == 6);
    assert(adapter_id(ProviderId::Anthropic).len() == 9);
}

/// Whether `stored` is the row `row` as written to the database and read
/// back: the provider's id, the same base URL, models JSON and headers, and
/// the envelope's text, blank exactly where no key was sealed.
pub open spec fn written_as(row: ProviderRow, stored: StoredProviderRow) -> bool {
    &&& stored.provider_id@ == adapter_id(row.provider)
    &&& stored.base_url@ == row.base_url@
    &&& stored.models_json@ == row.models_json@
    &&& stored.headers matches Ok(hs) && hs@.map_values(|h: HeaderPair| pair_view(h))
        == row.headers@.map_values(|h: HeaderPair| pair_view(h))
    &&& match row.api_key_cipher {
        None => trim(stored.api_key_cipher_json@).len() == 0,
        Some(e) => trim(stored.api_key_cipher_json@).len() > 0 && stored.api_key_cipher == Ok::<
            CipherEnvelope,
            String,
        >(e),
    }
}

/// The settings of every provider of `cfg`.
pub open spec fn saved_views(cfg: LlmRuntimeConfig) -> Map<ProviderId, ProviderView> {
    Map::new(|p: ProviderId| true, |p: ProviderId| provider_view(cfg, p))
}

/// Loading reads back what saving wrote: the rows of a save, as written and
/// read back, hold the normalized settings of every provider, every
/// provider has its row, and the stored default id names the normalized
/// default. So `load_config` under the same fingerprint gives the saved,
/// normalized configuration, normalized once more.
pub proof fn lemma_saved_rows_read_back(
    config: LlmRuntimeConfig,
    key: Seq<u8>,
    plan: RuntimeConfigSave,
    stored: Seq<StoredProviderRow>,
)
    requires
        is_save_plan(config, key, plan),
        stored.len() == 3,
        forall|i: int| 0 <= i < 3 ==> written_as(#[trigger] plan.rows@[i], stored[i]),
    ensures
        rows_hold(key, stored, saved_views(plan.normalized)),
        forall|p: ProviderId|
            #[trigger] held_view(stored, saved_views(plan.normalized), p) == provider_view(plan.normalized, p),
        default_ok(plan.default_provider),
        parsed_default(plan.default_provider) == plan.normalized.default_provider,
{
    let vs = saved_views(plan.normalized);
    assert forall|p: ProviderId| #[trigger]
        as_loaded(provider_view(plan.normalized, p)) == provider_view(plan.normalized, p) by {
        let v = provider_view(plan.normalized, p);
        crate::text::lemma_trim_idempotent(provider_view(config, p).api_key);
        assert(trim(v.api_key) == v.api_key);
        if trim(v.api_key).len() == 0 {
            assert(v.api_key =~= Seq::<char>::empty());
        }
        assert(as_loaded(v) =~= v);
    }
    assert forall|i: int| 0 <= i < 3 implies provider_of((#[trigger] stored[i]).provider_id@) == Some(
        provider_order()[i],
    ) by {
        assert(written_as(plan.rows@[i], stored[i]));
        lemma_provider_of_adapter_id(provider_order()[i]);
    }
    assert forall|i: int| 0 <= i < stored.len() implies {
        &&& provider_of((#[trigger] stored[i]).provider_id@) is Some
        &&& vs.contains_key(provider_of(stored[i].provider_id@)->0)
        &&& stored_row_holds(
            key,
            stored[i],
            provider_of(stored[i].provider_id@)->0,
            vs[provider_of(stored[i].provider_id@)->0],
        )
    } by {
        let p = provider_order()[i];
        assert(written_as(plan.rows@[i], stored[i]));
        assert(row_stores(key, plan.rows@[i], p, provider_view(plan.normalized, p)));
        assert(vs[p] == provider_view(plan.normalized, p));
    }
    assert forall|p: ProviderId| #[trigger] held_view(stored, vs, p) == provider_view(plan.normalized, p) by {
        let i: int = match p {
            ProviderId::Bigmodel => 0,
            ProviderId::Openai => 1,
            ProviderId::Anthropic => 2,
        };
        assert(provider_order()[i] == p);
        assert(provider_of(stored[i].provider_id@) == Some(p));
        assert(rows_cover(stored, p));
    }
    match plan.normalized.default_provider {
        Some(p) => {
            lemma_provider_of_adapter_id(p);
        },
        None => {},
    }
}

} // verus!
