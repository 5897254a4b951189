//! What the library has from other crates and from the system: HKDF and
//! SHA-256 from `hkdf` and `sha2`, AES-256-GCM from `aes-gcm`, URL-safe
//! unpadded base64 from `base64`, URL parsing from `url`, JSON lists of
//! strings from `serde_json`, random ids from `uuid`, random bytes from
//! `rand`, the secure storage of `keyring`, and the machine's clock. Results
//! that are a function of the arguments are named, not described; beside the
//! names stand only the facts their crates give.
use vstd::prelude::*;

use crate::chat::plan::{PlanFields, PlanFieldsView, PlanTaskFields};
use serde_json::Value;

use aes_gcm::aead::{Aead, KeyInit};
use base64::Engine;
use rand::RngCore;
use sha2::Digest;

#[allow(unused_imports)]
use vstd::utf8::{decode_utf8, valid_utf8};

verus! {

/// The largest plaintext AES-256-GCM seals, in bytes.
pub const AES_GCM_MAX_PLAINTEXT: u64 = 68719476736;

/// The 32 bytes HKDF-SHA256 derives from `ikm` with `salt` and `info`.
pub uninterp spec fn hkdf_sha256_okm(salt: Seq<u8>, ikm: Seq<u8>, info: Seq<u8>) -> Seq<u8>;

/// The SHA-256 digest of `data`.
pub uninterp spec fn sha256_of(data: Seq<u8>) -> Seq<u8>;

/// The AES-256-GCM ciphertext (with its tag) of `plaintext` under `key` and
/// `nonce`, without associated data.
pub uninterp spec fn aes256gcm_seal(key: Seq<u8>, nonce: Seq<u8>, plaintext: Seq<u8>) -> Seq<u8>;

/// The plaintext of an AES-256-GCM ciphertext under `key` and `nonce`, or
/// `None` where the tag does not verify.
pub uninterp spec fn aes256gcm_open(key: Seq<u8>, nonce: Seq<u8>, ciphertext: Seq<u8>) -> Option<Seq<u8>>;

/// The URL-safe base64 text of `data`, without padding.
pub uninterp spec fn b64_url_encode(data: Seq<u8>) -> Seq<char>;

/// The bytes of URL-safe unpadded base64 text, or the text of the decoding
/// error.
pub uninterp spec fn b64_url_decode(text: Seq<char>) -> Result<Seq<u8>, Seq<char>>;

/// `hkdf::Hkdf::<Sha256>::new` with `salt` and `ikm`, then `expand` into 32
/// bytes with `info`. Expansion fails only for more than 255 hash lengths of
/// output, so it always succeeds here; the bytes are named.
#[verifier::external_body]
pub(crate) fn hkdf_sha256_32(salt: &[u8], ikm: &[u8], info: &[u8]) -> (r: Option<[u8; 32]>)
    ensures
        r is Some,
        r matches Some(k) ==> k@ == hkdf_sha256_okm(salt@, ikm@, info@),
{
    let hk = hkdf::Hkdf::<sha2::Sha256>::new(Some(salt), ikm);
    let mut okm = [0u8; 32];
    match hk.expand(info, &mut okm) {
        Ok(()) => Some(okm),
        Err(_) => None,
    }
}

/// `sha2::Sha256::digest` of `data`; the digest is named.
#[verifier::external_body]
pub(crate) fn sha256(data: &[u8]) -> (r: [u8; 32])
    ensures
        r@ == sha256_of(data@),
{
    sha2::Sha256::digest(data).into()
}

/// `Aes256Gcm::encrypt` of `plaintext` under `key` and `nonce`. The key has
/// the length the cipher takes, and encryption fails exactly for a plaintext
/// longer than `AES_GCM_MAX_PLAINTEXT`, with `aead::Error`'s text; the
/// ciphertext is named.
#[verifier::external_body]
pub(crate) fn aes_gcm_encrypt(key: &[u8; 32], nonce: &[u8], plaintext: &[u8]) -> (r: Result<Vec<u8>, String>)
    requires
        nonce@.len() == 12,
    ensures
        r matches Ok(c) ==> c@ == aes256gcm_seal(key@, nonce@, plaintext@),
        (r is Ok) == (plaintext@.len() <= AES_GCM_MAX_PLAINTEXT),
        r matches Err(e) ==> e@ == "aead::Error"@,
{
    match aes_gcm::Aes256Gcm::new_from_slice(key) {
        Ok(cipher) => match cipher.encrypt(aes_gcm::Nonce::from_slice(nonce), plaintext) {
            Ok(c) => Ok(c),
            Err(e) => Err(e.to_string()),
        },
        Err(e) => Err(e.to_string()),
    }
}

/// `Aes256Gcm::decrypt` of `ciphertext` under `key` and `nonce`, which must
/// be 12 bytes long (`Nonce::from_slice` panics otherwise). The outcome is
/// named; what AES-GCM sealed under a key and nonce opens under them to the
/// plaintext sealed. A tag that does not verify fails with `aead::Error`'s
/// text.
#[verifier::external_body]
pub(crate) fn aes_gcm_decrypt(key: &[u8; 32], nonce: &[u8], ciphertext: &[u8]) -> (r: Result<Vec<u8>, String>)
    requires
        nonce@.len() == 12,
    ensures
        (r is Ok) == (aes256gcm_open(key@, nonce@, ciphertext@) is Some),
        r matches Ok(p) ==> aes256gcm_open(key@, nonce@, ciphertext@) == Some(p@),
        r matches Err(e) ==> e@ == "aead::Error"@,
        r is Err ==> forall|p: Seq<u8>|
            p.len() <= AES_GCM_MAX_PLAINTEXT ==> ciphertext@ != #[trigger] aes256gcm_seal(key@, nonce@, p),
        r matches Ok(q) ==> forall|p: Seq<u8>|
            p.len() <= AES_GCM_MAX_PLAINTEXT && ciphertext@ == #[trigger] aes256gcm_seal(key@, nonce@, p)
                ==> q@ == p,
{
    match aes_gcm::Aes256Gcm::new_from_slice(key) {
        Ok(cipher) => match cipher.decrypt(aes_gcm::Nonce::from_slice(nonce), ciphertext) {
            Ok(p) => Ok(p),
            Err(e) => Err(e.to_string()),
        },
        Err(e) => Err(e.to_string()),
    }
}

/// `URL_SAFE_NO_PAD.encode` of `data`; the text is named. (Its only panic
/// is an overflow of the output length, which no slice reaches.)
#[verifier::external_body]
pub(crate) fn b64_encode(data: &[u8]) -> (r: String)
    ensures
        r@ == b64_url_encode(data@),
{
    base64::engine::general_purpose::URL_SAFE_NO_PAD.encode(data)
}

/// `URL_SAFE_NO_PAD.decode` of `text`, the error rendered as text; the
/// outcome is named, and text that encoding produced decodes to the bytes
/// encoded.
#[verifier::external_body]
pub(crate) fn b64_decode(text: &str) -> (r: Result<Vec<u8>, String>)
    ensures
        r matches Ok(d) ==> b64_url_decode(text@) is Ok && b64_url_decode(text@)->Ok_0 == d@,
        r matches Err(e) ==> b64_url_decode(text@) is Err && b64_url_decode(text@)->Err_0 == e@,
        r is Err ==> forall|d: Seq<u8>| text@ != #[trigger] b64_url_encode(d),
        r matches Ok(out) ==> forall|d: Seq<u8>| text@ == #[trigger] b64_url_encode(d) ==> out@ == d,
{
    match base64::engine::general_purpose::URL_SAFE_NO_PAD.decode(text) {
        Ok(d) => Ok(d),
        Err(e) => Err(e.to_string()),
    }
}

/// The message given where the operating system's random source fails.
pub open spec fn random_unavailable_message() -> Seq<char> {
    "the system's random source is unavailable"@
}

/// `n` bytes from the operating system's random source
/// (`rand::rngs::OsRng::try_fill_bytes`), or `None` where the source fails.
/// Nothing is claimed of the bytes but their number.
#[verifier::external_body]
pub(crate) fn random_bytes(n: usize) -> (r: Option<Vec<u8>>)
    requires
        n <= 64,
    ensures
        r matches Some(b) ==> b@.len() == n,
{
    let mut bytes = vec![0u8; n];
    match rand::rngs::OsRng.try_fill_bytes(&mut bytes) {
        Ok(()) => Some(bytes),
        Err(_) => None,
    }
}

/// `String::from_utf8`: the text the bytes encode, where they are valid
/// UTF-8, else the error rendered as text (of which nothing is claimed).
#[verifier::external_body]
pub(crate) fn utf8_string(bytes: Vec<u8>) -> (r: Result<String, String>)
    ensures
        (r is Ok) == valid_utf8(bytes@),
        r matches Ok(s) ==> s@ == decode_utf8(bytes@),
{
    match String::from_utf8(bytes) {
        Ok(s) => Ok(s),
        Err(e) => Err(e.to_string()),
    }
}

/// Whether `s` has the shape of a generated id: 36 lowercase hexadecimal
/// digits and hyphens, the hyphens at positions 8, 13, 18 and 23.
pub open spec fn is_generated_id(s: Seq<char>) -> bool {
    &&& s.len() == 36
    &&& forall|i: int|
        0 <= i < 36 ==> if i == 8 || i == 13 || i == 18 || i == 23 {
            s[i] == '-'
        } else {
            ('0' <= #[trigger] s[i] && s[i] <= '9') || ('a' <= s[i] && s[i] <= 'f')
        }
}

/// The text of the version 4 UUID that `uuid::Builder::from_random_bytes`
/// makes of 16 random bytes, as its `Display` writes it.
pub uninterp spec fn uuid_v4_text(bytes: Seq<u8>) -> Seq<char>;

/// `uuid::Builder::from_random_bytes` of 16 bytes, rendered by the UUID's
/// `Display`: the hyphenated lowercase form, so text of the shape of a
/// generated id. The text is named.
#[verifier::external_body]
pub(crate) fn uuid_v4_from_bytes(bytes: &[u8]) -> (r: String)
    requires
        bytes@.len() == 16,
    ensures
        r@ == uuid_v4_text(bytes@),
        is_generated_id(r@),
{
    let mut raw = [0u8; 16];
    raw.copy_from_slice(bytes);
    uuid::Builder::from_random_bytes(raw).into_uuid().to_string()
}

/// A fresh random id: a version 4 UUID made of 16 bytes from the operating
/// system's random source, or `None` where that source fails.
pub(crate) fn new_uuid_string() -> (r: Option<String>)
    ensures
        r matches Some(s) ==> is_generated_id(s@) && exists|b: Seq<u8>|
            b.len() == 16 && s@ == #[trigger] uuid_v4_text(b),
{
    match random_bytes(16) {
        Some(bytes) => Some(uuid_v4_from_bytes(bytes.as_slice())),
        None => None,
    }
}

#[verifier::external_type_specification]
#[verifier::external_body]
pub struct ExUrl(url::Url);

/// A parsed URL, with its serialization, host and path as text.
pub struct ParsedUrl {
    url: url::Url,
    text: String,
    host: Option<String>,
    path: String,
}

impl ParsedUrl {
    /// The URL's serialization.
    pub closed spec fn text(&self) -> Seq<char> {
        self.text@
    }

    /// The URL's host, if it has one.
    pub closed spec fn host(&self) -> Option<Seq<char>> {
        match self.host {
            Some(h) => Some(h@),
            None => None,
        }
    }

    /// The URL's path.
    pub closed spec fn path(&self) -> Seq<char> {
        self.path@
    }

    /// The URL's serialization.
    pub fn as_str(&self) -> (r: &str)
        ensures
            r@ == self.text(),
    {
        self.text.as_str()
    }

    /// The URL's path.
    pub fn path_str(&self) -> (r: &str)
        ensures
            r@ == self.path(),
    {
        self.path.as_str()
    }

    /// The URL's host, if it has one.
    pub fn host_name(&self) -> (r: Option<&str>)
        ensures
            match r {
                Some(h) => self.host() == Some(h@),
                None => self.host() is None,
            },
    {
        match &self.host {
            Some(h) => Some(h.as_str()),
            None => None,
        }
    }

    /// The URL's serialization, as an owned string.
    pub fn into_string(self) -> (r: String)
        ensures
            r@ == self.text(),
    {
        self.text
    }

    /// The URL itself.
    pub fn into_url(self) -> url::Url {
        self.url
    }
}

/// What `url::Url::parse` makes of a text: the URL's serialization, host
/// and path, or the text of the parse error.
pub uninterp spec fn url_parse(text: Seq<char>) -> Result<(Seq<char>, Option<Seq<char>>, Seq<char>), Seq<char>>;

/// `url::Url::parse` of `text`; the URL is handed out with its `Display`
/// text, `host_str` and `path`, the error rendered as text. The outcome is
/// named.
#[verifier::external_body]
pub(crate) fn parse_url(text: &str) -> (r: Result<ParsedUrl, String>)
    ensures
        r matches Ok(p) ==> url_parse(text@) is Ok && url_parse(text@)->Ok_0.0 == p.text()
            && url_parse(text@)->Ok_0.2 == p.path() && url_parse(text@)->Ok_0.1 == p.host(),
        r matches Err(e) ==> url_parse(text@) is Err && url_parse(text@)->Err_0 == e@,
{
    match url::Url::parse(text) {
        Ok(u) => {
            let text = u.to_string();
            let host = u.host_str().map(|h| h.to_string());
            let path = u.path().to_string();
            Ok(ParsedUrl { url: u, text, host, path })
        },
        Err(e) => Err(e.to_string()),
    }
}

/// The serialization `url::Url::set_path` gives the URL serialized as
/// `text` when its path is set to `path`.
pub uninterp spec fn url_with_path(text: Seq<char>, path: Seq<char>) -> Seq<char>;

/// `url::Url::set_path` of `u` to `path`, after which the serialization,
/// host and path are read again. The new serialization is named; the host is
/// left as it was (the call rewrites only the path).
#[verifier::external_body]
pub(crate) fn url_set_path(u: &mut ParsedUrl, path: &str)
    ensures
        final(u).text() == url_with_path(old(u).text(), path@),
        final(u).host() == old(u).host(),
{
    u.url.set_path(path);
    u.text = u.url.to_string();
    u.path = u.url.path().to_string();
}

/// What a tool's output text holds as a plan update, as `serde_json` reads
/// it: `None` where the text is not JSON, `Some(None)` where its `plan`
/// member is missing or not an object, else the plan's fields: the title and
/// description where they are strings, the task entries where `tasks` is a
/// list (an entry that is not an object reads as `None`; an object's `id`,
/// `title` and `status` where they are strings), and `is_streaming` where it
/// is a boolean.
pub uninterp spec fn plan_output_of(content: Seq<char>) -> Option<Option<PlanFieldsView>>;

/// The content of what `read_plan_output` hands back.
pub open spec fn plan_output_view(r: Option<Option<PlanFields>>) -> Option<Option<PlanFieldsView>> {
    match r {
        None => None,
        Some(None) => Some(None),
        Some(Some(p)) => Some(Some(p@)),
    }
}

/// `serde_json::from_str` of a tool's output text into a `serde_json::Value`,
/// whose `plan` object is then converted field by field. The outcome is
/// named.
#[verifier::external_body]
pub(crate) fn read_plan_output(content: &str) -> (r: Option<Option<PlanFields>>)
    ensures
        plan_output_view(r) == plan_output_of(content@),
{
    let v: Value = serde_json::from_str(content).ok()?;
    let s = |x: Option<&Value>| x.and_then(Value::as_str).map(String::from);
    Some(v.get("plan").and_then(Value::as_object).map(|p| PlanFields {
        title: s(p.get("title")),
        description: s(p.get("description")),
        tasks: p.get("tasks").and_then(Value::as_array).map(|ts| ts.iter().map(|t| t.as_object().map(|o| {
            PlanTaskFields { id: s(o.get("id")), title: s(o.get("title")), status: s(o.get("status")) }
        })).collect()),
        is_streaming: p.get("is_streaming").and_then(Value::as_bool),
    }))
}

/// The JSON text `serde_json::to_string` writes for a list of strings.
pub uninterp spec fn json_of_strings(items: Seq<Seq<char>>) -> Seq<char>;

/// What `serde_json::from_str` reads from a text as a list of strings, or
/// the text of its error.
pub uninterp spec fn strings_of_json(text: Seq<char>) -> Result<Seq<Seq<char>>, Seq<char>>;

/// `serde_json::to_string` of a list of strings, which fails only for a
/// failing `Serialize` impl or a map with non-string keys, so never here;
/// the text is named.
#[verifier::external_body]
pub(crate) fn strings_to_json(items: &Vec<String>) -> (r: Result<String, String>)
    ensures
        r is Ok,
        r matches Ok(t) ==> t@ == json_of_strings(items@.map_values(|s: String| s@)),
{
    match serde_json::to_string(items) {
        Ok(t) => Ok(t),
        Err(e) => Err(e.to_string()),
    }
}

/// `serde_json::from_str` of a list of strings, the error rendered as text;
/// the outcome is named, and the JSON text of a list reads back as that list.
#[verifier::external_body]
pub(crate) fn strings_from_json(text: &str) -> (r: Result<Vec<String>, String>)
    ensures
        r matches Ok(v) ==> strings_of_json(text@) is Ok && strings_of_json(text@)->Ok_0
            == v@.map_values(|s: String| s@),
        r matches Err(e) ==> strings_of_json(text@) is Err && strings_of_json(text@)->Err_0 == e@,
        r is Err ==> forall|items: Seq<Seq<char>>| text@ != #[trigger] json_of_strings(items),
        r matches Ok(v) ==> forall|items: Seq<Seq<char>>|
            text@ == #[trigger] json_of_strings(items) ==> v@.map_values(|s: String| s@) == items,
{
    match serde_json::from_str::<Vec<String>>(text) {
        Ok(v) => Ok(v),
        Err(e) => Err(e.to_string()),
    }
}

/// The machine's clock in milliseconds since the Unix epoch
/// (`std::time::SystemTime::now`, measured from `UNIX_EPOCH`), or 0 for a
/// clock set before the epoch. Nothing is claimed of the value.
#[verifier::external_body]
pub(crate) fn now_ms() -> (r: u64) {
    match std::time::SystemTime::now().duration_since(std::time::UNIX_EPOCH) {
        Ok(d) => d.as_millis() as u64,
        Err(_) => 0,
    }
}

#[verifier::external_type_specification]
#[verifier::external_body]
pub struct ExKeyringEntry(keyring::Entry);

/// An entry of the platform's secure storage, with the service and user it
/// was opened for.
pub struct KeyringEntry {
    entry: keyring::Entry,
    service: String,
    user: String,
}

impl KeyringEntry {
    /// The service the entry was opened for.
    pub closed spec fn service(&self) -> Seq<char> {
        self.service@
    }

    /// The user the entry was opened for.
    pub closed spec fn user(&self) -> Seq<char> {
        self.user@
    }
}

/// `keyring::Entry::new` for a service and user, its error rendered as
/// text: an entry opened for that service and user. What the platform's
/// secure storage accepts is not stated (it refuses some service and user
/// values; `new` panics only on a poisoned internal lock).
#[verifier::external_body]
pub(crate) fn keyring_entry(service: &str, user: &str) -> (r: Result<KeyringEntry, String>)
    ensures
        r matches Ok(e) ==> e.service() == service@ && e.user() == user@,
{
    match keyring::Entry::new(service, user) {
        Ok(entry) => Ok(KeyringEntry { entry, service: service.to_string(), user: user.to_string() }),
        Err(e) => Err(e.to_string()),
    }
}

/// `Entry::get_secret`: the stored secret, `None` where the storage holds no
/// entry (`Error::NoEntry`), else the error rendered as text. What the
/// storage holds is not stated.
#[verifier::external_body]
pub(crate) fn keyring_get_secret(entry: &KeyringEntry) -> (r: Result<Option<Vec<u8>>, String>) {
    match entry.entry.get_secret() {
        Ok(secret) => Ok(Some(secret)),
        Err(keyring::Error::NoEntry) => Ok(None),
        Err(e) => Err(e.to_string()),
    }
}

/// `Entry::set_secret`, its error rendered as text. Whether the storage
/// accepts the secret is not stated.
#[verifier::external_body]
pub(crate) fn keyring_set_secret(entry: &KeyringEntry, secret: &[u8]) -> (r: Result<(), String>) {
    match entry.entry.set_secret(secret) {
        Ok(()) => Ok(()),
        Err(e) => Err(e.to_string()),
    }
}

} // verus!
