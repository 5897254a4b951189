//! The rules of the provider settings service: which inputs a profile may be
//! saved from, what record is stored, when a profile may be deleted, and
//! what a connection test reports.
use vstd::prelude::*;

use crate::primitives::{
    is_generated_id, new_uuid_string, parse_url, random_unavailable_message, url_parse, url_set_path,
    url_with_path, ParsedUrl,
};
use crate::provider_settings::crypto::{AesGcmSecretBox, DataKeyStore, EncryptedSecret};
use crate::provider_settings::model::{
    ProviderConnectionResult, ProviderKind, ProviderProfileRecord, ProviderRuntimeConfig,
    SaveProviderProfileInput, TestProviderProfileInput,
};
use crate::provider_settings::ProviderSettingsError;
use crate::text::{
    chars_of, lemma_trim_idempotent, owned, push_char, push_str, str_eq, trim, trim_end_char,
    trim_end_matches_char, trim_str,
};

verus! {

/// The message of a missing required field.
pub open spec fn required_message(field: Seq<char>) -> Seq<char> {
    field + " is required"@
}

/// The trimmed value of a required field, refused where it is blank.
pub fn trim_required(field: &str, value: String) -> (r: Result<String, ProviderSettingsError>)
    ensures
        trim(value@).len() == 0 ==> (r matches Err(ProviderSettingsError::Validation(m)) && m@
            == required_message(field@)),
        trim(value@).len() > 0 ==> (r matches Ok(t) && t@ == trim(value@)),
{
    let trimmed = trim_str(value.as_str());
    if trimmed.as_str().is_empty() {
        let mut m = owned(field);
        push_str(&mut m, " is required");
        return Err(ProviderSettingsError::Validation(m));
    }
    Ok(trimmed)
}

/// The normalized form of a URL: the serialization of the trimmed text
/// parsed, or the parse error as a validation error.
pub fn normalize_url(value: String) -> (r: Result<String, ProviderSettingsError>)
    ensures
        url_parse(trim(value@)) is Ok ==> (r matches Ok(u) && u@ == url_parse(trim(value@))->Ok_0.0),
        url_parse(trim(value@)) is Err ==> (r matches Err(ProviderSettingsError::Validation(m))
            && m@ == url_parse(trim(value@))->Err_0),
{
    let trimmed = trim_str(value.as_str());
    match parse_url(trimmed.as_str()) {
        Ok(p) => Ok(p.into_string()),
        Err(e) => Err(ProviderSettingsError::Validation(e)),
    }
}

/// The path of the models endpoint under a base path: trailing slashes
/// removed, then `/models` appended unless the path already ends with it.
pub open spec fn models_path(path: Seq<char>) -> Seq<char> {
    let t = trim_end_char(path, '/');
    let p = if t.len() == 0 { seq!['/'] } else { t };
    if p.len() >= 7 && p.subrange(p.len() - 7, p.len() as int) == "/models"@ {
        p
    } else if p.len() > 0 && p[p.len() - 1] == '/' {
        p + "models"@
    } else {
        p + "/models"@
    }
}

/// Whether `s` ends with `/models`.
fn ends_with_models(s: &str) -> (r: bool)
    ensures
        r == (s@.len() >= 7 && s@.subrange(s@.len() - 7, s@.len() as int) == "/models"@),
{
    let v = chars_of(s);
    let suffix = chars_of("/models");
    proof {
        reveal_strlit("/models");
    }
    if v.len() < 7 {
        return false;
    }
    let start = v.len() - 7;
    let mut i: usize = 0;
    while i < 7
        invariant
            i <= 7,
            v@ == s@,
            suffix@ == "/models"@,
            suffix@.len() == 7,
            start == v@.len() - 7,
            v@.len() >= 7,
            v@.len() <= usize::MAX,
            forall|j: int| 0 <= j < i ==> v@[start + j] == suffix@[j],
        decreases 7 - i,
    {
        if v[start + i] != suffix[i] {
            assert(v@.subrange(start as int, v@.len() as int)[i as int] != "/models"@[i as int]);
            return false;
        }
        i = i + 1;
    }
    assert(v@.subrange(start as int, v@.len() as int) =~= "/models"@);
    true
}

/// The path of the models endpoint under a base path.
pub fn endpoint_path(path: &str) -> (r: String)
    ensures
        r@ == models_path(path@),
{
    let mut p = trim_end_matches_char(path, '/');
    if p.as_str().is_empty() {
        push_char(&mut p, '/');
    }
    if !ends_with_models(p.as_str()) {
        let v = chars_of(p.as_str());
        if !(v.len() > 0 && v[v.len() - 1] == '/') {
            push_char(&mut p, '/');
        }
        push_str(&mut p, "models");
        proof {
            reveal_strlit("models");
            reveal_strlit("/models");
            assert(seq!['/'] + "models"@ =~= "/models"@);
        }
    }
    p
}

/// The models endpoint of a base URL: the URL with its path replaced by the
/// models path under it. An unparsable URL is a validation error.
pub fn build_models_endpoint(base_url: &str) -> (r: Result<ParsedUrl, ProviderSettingsError>)
    ensures
        url_parse(base_url@) is Ok ==> (r matches Ok(u) && u.text() == url_with_path(
            url_parse(base_url@)->Ok_0.0,
            models_path(url_parse(base_url@)->Ok_0.2),
        )),
        url_parse(base_url@) is Err ==> (r matches Err(ProviderSettingsError::Validation(m)) && m@
            == url_parse(base_url@)->Err_0),
{
    match parse_url(base_url) {
        Ok(p) => {
            let mut url = p;
            let new_path = endpoint_path(url.path_str());
            url_set_path(&mut url, new_path.as_str());
            Ok(url)
        },
        Err(e) => Err(ProviderSettingsError::Validation(e)),
    }
}

/// A profile's fields as given, checked and normalized: trimmed name and
/// model, normalized base URL, and the trimmed API key where one was given
/// that is not blank.
#[derive(Debug, Clone, PartialEq, Eq)]
pub struct ProfileDraft {
    pub name: String,
    pub base_url: String,
    pub model: String,
    pub api_key: Option<String>,
}

/// The trimmed API key of an input, where one was given that is not blank.
pub open spec fn given_api_key(k: Option<String>) -> Option<Seq<char>> {
    match k {
        Some(k) => if trim(k@).len() > 0 {
            Some(trim(k@))
        } else {
            None
        },
        None => None,
    }
}

/// Whether `r` checks the fields of a save request in order: name, base URL
/// (present, then parsable), model.
pub open spec fn is_draft_of(input: SaveProviderProfileInput, r: Result<ProfileDraft, ProviderSettingsError>) -> bool {
    let base = trim(input.base_url@);
    if trim(input.name@).len() == 0 {
        r matches Err(ProviderSettingsError::Validation(m)) && m@ == required_message("name"@)
    } else if base.len() == 0 {
        r matches Err(ProviderSettingsError::Validation(m)) && m@ == required_message("base_url"@)
    } else if url_parse(base) is Err {
        r matches Err(ProviderSettingsError::Validation(m)) && m@ == url_parse(base)->Err_0
    } else if trim(input.model@).len() == 0 {
        r matches Err(ProviderSettingsError::Validation(m)) && m@ == required_message("model"@)
    } else {
        r matches Ok(d) && d.name@ == trim(input.name@) && d.base_url@ == url_parse(base)->Ok_0.0
            && d.model@ == trim(input.model@) && match d.api_key {
            Some(k) => given_api_key(input.api_key) == Some(k@),
            None => given_api_key(input.api_key) is None,
        }
    }
}

/// Checks and normalizes the fields of a save request.
pub fn draft_profile(input: &SaveProviderProfileInput) -> (r: Result<ProfileDraft, ProviderSettingsError>)
    ensures
        is_draft_of(*input, r),
{
    let name = match trim_required("name", input.name.clone()) {
        Ok(n) => n,
        Err(e) => {
            return Err(e);
        },
    };
    let base = match trim_required("base_url", input.base_url.clone()) {
        Ok(b) => b,
        Err(e) => {
            return Err(e);
        },
    };
    proof {
        lemma_trim_idempotent(input.base_url@);
    }
    let base_url = match normalize_url(base) {
        Ok(u) => u,
        Err(e) => {
            return Err(e);
        },
    };
    let model = match trim_required("model", input.model.clone()) {
        Ok(m) => m,
        Err(e) => {
            return Err(e);
        },
    };
    let api_key = match &input.api_key {
        Some(k) => {
            let t = trim_str(k.as_str());
            if t.as_str().is_empty() {
                None
            } else {
                Some(t)
            }
        },
        None => None,
    };
    Ok(ProfileDraft { name, base_url, model, api_key })
}

/// The refusal for a profile that does not exist.
pub open spec fn profile_not_found_message(profile_id: Seq<char>) -> Seq<char> {
    "provider profile `"@ + profile_id + "` not found"@
}

/// The refusal for a profile that does not exist.
pub fn profile_not_found(profile_id: &str) -> (e: ProviderSettingsError)
    ensures
        e matches ProviderSettingsError::NotFound(m) && m@ == profile_not_found_message(profile_id@),
{
    let mut m = owned("provider profile `");
    push_str(&mut m, profile_id);
    push_str(&mut m, "` not found");
    ProviderSettingsError::NotFound(m)
}

/// The stored profile a save request names: with no requested id there is
/// none; a requested id is looked up by the caller (`found`), and an id that
/// names no stored profile is not found.
pub fn existing_profile(input_id: &Option<String>, found: Option<ProviderProfileRecord>) -> (r: Result<
    Option<ProviderProfileRecord>,
    ProviderSettingsError,
>)
    ensures
        input_id is None ==> r matches Ok(None),
        input_id matches Some(id) ==> match found {
            Some(x) => r == Ok::<Option<ProviderProfileRecord>, ProviderSettingsError>(Some(x)),
            None => r matches Err(ProviderSettingsError::NotFound(m)) && m@ == profile_not_found_message(id@),
        },
{
    match input_id {
        None => Ok(None),
        Some(id) => match found {
            Some(x) => Ok(Some(x)),
            None => Err(profile_not_found(id.as_str())),
        },
    }
}

/// Whether `r` is the record saved for a checked draft. A requested id that
/// names no stored profile is not found. Else the record takes the new key's
/// sealing or the existing record's; it is default where no profile is
/// default yet, where asked, or where the existing default is kept; it keeps
/// the existing id and creation time where the profile exists, else it gets a
/// fresh id, which fails only where the system's random source fails, and
/// `now`.
pub open spec fn is_saved_record(
    draft: ProfileDraft,
    input_id: Option<String>,
    input_is_default: bool,
    existing: Option<ProviderProfileRecord>,
    encrypted: Option<EncryptedSecret>,
    had_default: bool,
    now: String,
    r: Result<ProviderProfileRecord, ProviderSettingsError>,
) -> bool {
    if input_id is Some && existing is None {
        r matches Err(ProviderSettingsError::NotFound(m)) && m@ == profile_not_found_message(
            input_id->0@,
        )
    } else if encrypted is None && existing is None {
        r matches Err(ProviderSettingsError::Validation(m)) && m@
            == "api_key is required when creating a provider profile"@
    } else if had_default && (existing matches Some(x) && x.is_default) && !input_is_default {
        r matches Err(ProviderSettingsError::Validation(m)) && m@
            == "default profile cannot be unset without selecting another default"@
    } else {
        ||| existing is None && (r matches Err(ProviderSettingsError::Crypto(m)) && m@
            == random_unavailable_message())
        ||| r matches Ok(rec) && {
            &&& rec.provider_kind == ProviderKind::OpenAiCompatible
            &&& rec.name == draft.name
            &&& rec.base_url == draft.base_url
            &&& rec.model == draft.model
            &&& match encrypted {
                Some(e) => rec.api_key_ciphertext@ == e.ciphertext@ && rec.api_key_nonce@ == e.nonce@,
                None => rec.api_key_ciphertext@ == existing->0.api_key_ciphertext@
                    && rec.api_key_nonce@ == existing->0.api_key_nonce@,
            }
            &&& rec.is_default == (!had_default || input_is_default)
            &&& match existing {
                Some(x) => rec.id == x.id && rec.created_at == x.created_at,
                None => is_generated_id(rec.id@) && rec.created_at == now,
            }
            &&& rec.updated_at == now
        }
    }
}

/// Whether `r` is the record saved for a checked draft when a new profile
/// takes the id `fresh_id`; as `is_saved_record`, with that id in place of a
/// fresh one and no failure of the random source.
pub open spec fn is_saved_record_with_id(
    draft: ProfileDraft,
    input_id: Option<String>,
    input_is_default: bool,
    existing: Option<ProviderProfileRecord>,
    encrypted: Option<EncryptedSecret>,
    had_default: bool,
    now: String,
    fresh_id: String,
    r: Result<ProviderProfileRecord, ProviderSettingsError>,
) -> bool {
    if input_id is Some && existing is None {
        r matches Err(ProviderSettingsError::NotFound(m)) && m@ == profile_not_found_message(
            input_id->0@,
        )
    } else if encrypted is None && existing is None {
        r matches Err(ProviderSettingsError::Validation(m)) && m@
            == "api_key is required when creating a provider profile"@
    } else if had_default && (existing matches Some(x) && x.is_default) && !input_is_default {
        r matches Err(ProviderSettingsError::Validation(m)) && m@
            == "default profile cannot be unset without selecting another default"@
    } else {
        r matches Ok(rec) && {
            &&& rec.provider_kind == ProviderKind::OpenAiCompatible
            &&& rec.name == draft.name
            &&& rec.base_url == draft.base_url
            &&& rec.model == draft.model
            &&& match encrypted {
                Some(e) => rec.api_key_ciphertext@ == e.ciphertext@ && rec.api_key_nonce@ == e.nonce@,
                None => rec.api_key_ciphertext@ == existing->0.api_key_ciphertext@
                    && rec.api_key_nonce@ == existing->0.api_key_nonce@,
            }
            &&& rec.is_default == (!had_default || input_is_default)
            &&& match existing {
                Some(x) => rec.id == x.id && rec.created_at == x.created_at,
                None => rec.id == fresh_id && rec.created_at == now,
            }
            &&& rec.updated_at == now
        }
    }
}

/// The record to store for a checked draft, a new profile taking the id
/// `fresh_id`. `existing` is the stored profile that the requested id names,
/// looked up by the caller (`None` where no id was requested or none is
/// stored under it), `encrypted` the sealing
/// of the draft's key where it has one, `had_default` whether some profile is
/// default.
pub fn complete_profile_with_id(
    draft: ProfileDraft,
    input_id: Option<String>,
    input_is_default: bool,
    existing: Option<ProviderProfileRecord>,
    encrypted: Option<EncryptedSecret>,
    had_default: bool,
    now: String,
    fresh_id: String,
) -> (r: Result<ProviderProfileRecord, ProviderSettingsError>)
    ensures
        is_saved_record_with_id(
            draft,
            input_id,
            input_is_default,
            existing,
            encrypted,
            had_default,
            now,
            fresh_id,
            r,
        ),
{
    if existing.is_none() {
        match &input_id {
            Some(id) => {
                return Err(profile_not_found(id.as_str()));
            },
            None => {},
        }
    }
    let secret = match encrypted {
        Some(e) => e,
        None => match &existing {
            Some(x) => EncryptedSecret {
                ciphertext: x.api_key_ciphertext.clone(),
                nonce: x.api_key_nonce.clone(),
            },
            None => {
                return Err(
                    ProviderSettingsError::Validation(
                        owned("api_key is required when creating a provider profile"),
                    ),
                );
            },
        },
    };
    let is_default = if !had_default {
        true
    } else {
        match &existing {
            Some(x) => {
                if x.is_default && !input_is_default {
                    return Err(
                        ProviderSettingsError::Validation(
                            owned("default profile cannot be unset without selecting another default"),
                        ),
                    );
                }
                input_is_default
            },
            None => input_is_default,
        }
    };
    let (id, created_at) = match existing {
        Some(x) => (x.id, x.created_at),
        None => {
            let id = fresh_id;
            (id, now.clone())
        },
    };
    Ok(
        ProviderProfileRecord {
            id,
            provider_kind: ProviderKind::OpenAiCompatible,
            name: draft.name,
            base_url: draft.base_url,
            model: draft.model,
            api_key_ciphertext: secret.ciphertext,
            api_key_nonce: secret.nonce,
            is_default,
            created_at,
            updated_at: now,
        },
    )
}

/// The record to store for a checked draft, a new profile taking a fresh id
/// (see `complete_profile_with_id`); where the system's random source fails,
/// no id can be drawn and that is refused once the checks pass.
pub fn complete_profile(
    draft: ProfileDraft,
    input_id: Option<String>,
    input_is_default: bool,
    existing: Option<ProviderProfileRecord>,
    encrypted: Option<EncryptedSecret>,
    had_default: bool,
    now: String,
) -> (r: Result<ProviderProfileRecord, ProviderSettingsError>)
    ensures
        is_saved_record(draft, input_id, input_is_default, existing, encrypted, had_default, now, r),
{
    if existing.is_some() {
        return complete_profile_with_id(
            draft,
            input_id,
            input_is_default,
            existing,
            encrypted,
            had_default,
            now,
            String::new(),
        );
    }
    match new_uuid_string() {
        Some(id) => complete_profile_with_id(
            draft,
            input_id,
            input_is_default,
            existing,
            encrypted,
            had_default,
            now,
            id,
        ),
        None => match complete_profile_with_id(
            draft,
            input_id,
            input_is_default,
            existing,
            encrypted,
            had_default,
            now,
            String::new(),
        ) {
            Ok(_) => Err(ProviderSettingsError::Crypto(owned("the system's random source is unavailable"))),
            Err(e) => Err(e),
        },
    }
}

/// Whether a profile may be deleted: it must exist and not be the default.
pub fn check_deletable(profile: Option<&ProviderProfileRecord>, profile_id: &str) -> (r: Result<
    (),
    ProviderSettingsError,
>)
    ensures
        profile is None ==> (r matches Err(ProviderSettingsError::NotFound(m)) && m@
            == profile_not_found_message(profile_id@)),
        profile matches Some(p) && p.is_default ==> (r matches Err(ProviderSettingsError::Validation(m))
            && m@ == "default provider profile cannot be deleted"@),
        profile matches Some(p) && !p.is_default ==> r is Ok,
{
    match profile {
        None => Err(profile_not_found(profile_id)),
        Some(p) => if p.is_default {
            Err(ProviderSettingsError::Validation(owned("default provider profile cannot be deleted")))
        } else {
            Ok(())
        },
    }
}

/// What a turn needs from the default profile, its key opened.
pub fn runtime_config_from_profile(profile: ProviderProfileRecord, api_key: String) -> (r: ProviderRuntimeConfig)
    ensures
        r.base_url == profile.base_url,
        r.model == profile.model,
        r.api_key == api_key,
{
    ProviderRuntimeConfig { base_url: profile.base_url, model: profile.model, api_key }
}

/// Whether `r` checks the fields of a connection test in order: base URL
/// (present, then parsable), API key, model; and hands out the normalized
/// URL and trimmed key.
pub open spec fn is_test_draft_of(input: TestProviderProfileInput, r: Result<(String, String), ProviderSettingsError>) -> bool {
    let base = trim(input.base_url@);
    if base.len() == 0 {
        r matches Err(ProviderSettingsError::Validation(m)) && m@ == required_message("base_url"@)
    } else if url_parse(base) is Err {
        r matches Err(ProviderSettingsError::Validation(m)) && m@ == url_parse(base)->Err_0
    } else if trim(input.api_key@).len() == 0 {
        r matches Err(ProviderSettingsError::Validation(m)) && m@ == required_message("api_key"@)
    } else if trim(input.model@).len() == 0 {
        r matches Err(ProviderSettingsError::Validation(m)) && m@ == required_message("model"@)
    } else {
        r matches Ok(p) && p.0@ == url_parse(base)->Ok_0.0 && p.1@ == trim(input.api_key@)
    }
}

/// Checks the fields of a connection test.
pub fn draft_connection_test(input: &TestProviderProfileInput) -> (r: Result<(String, String), ProviderSettingsError>)
    ensures
        is_test_draft_of(*input, r),
{
    let base = match trim_required("base_url", input.base_url.clone()) {
        Ok(b) => b,
        Err(e) => {
            return Err(e);
        },
    };
    proof {
        lemma_trim_idempotent(input.base_url@);
    }
    let base_url = match normalize_url(base) {
        Ok(u) => u,
        Err(e) => {
            return Err(e);
        },
    };
    let api_key = match trim_required("api_key", input.api_key.clone()) {
        Ok(k) => k,
        Err(e) => {
            return Err(e);
        },
    };
    match trim_required("model", input.model.clone()) {
        Ok(_) => {},
        Err(e) => {
            return Err(e);
        },
    }
    Ok((base_url, api_key))
}

/// The report of a connection test: success where the endpoint answered
/// with success, else the status and the trimmed body (or "empty response"
/// where none could be read).
pub fn connection_result(success: bool, status: &str, body: Option<String>) -> (r: ProviderConnectionResult)
    ensures
        r.success == success,
        success ==> r.message@ == "connection succeeded"@,
        !success ==> r.message@ == status@ + ": "@ + trim(
            match body {
                Some(b) => b@,
                None => "empty response"@,
            },
        ),
{
    if success {
        return ProviderConnectionResult { success: true, message: owned("connection succeeded") };
    }
    let text = match body {
        Some(b) => b,
        None => owned("empty response"),
    };
    let mut message = owned(status);
    push_str(&mut message, ": ");
    let trimmed = trim_str(text.as_str());
    push_str(&mut message, trimmed.as_str());
    ProviderConnectionResult { success: false, message }
}


/// A stored profile with its default mark cleared.
pub open spec fn undefaulted(r: ProviderProfileRecord) -> ProviderProfileRecord {
    ProviderProfileRecord { is_default: false, ..r }
}

/// Whether the profile stored under `id` is the default one.
pub open spec fn is_default_in(store: Map<Seq<char>, ProviderProfileRecord>, id: Seq<char>) -> bool {
    store.dom().contains(id) && store[id].is_default
}

/// Whether some stored profile is the default one.
pub open spec fn has_default_profile(store: Map<Seq<char>, ProviderProfileRecord>) -> bool {
    exists|id: Seq<char>| #[trigger] is_default_in(store, id)
}

/// Whether no two stored profiles are both default.
pub open spec fn at_most_one_default(store: Map<Seq<char>, ProviderProfileRecord>) -> bool {
    forall|a: Seq<char>, b: Seq<char>|
        #[trigger] is_default_in(store, a) && #[trigger] is_default_in(store, b) ==> a == b
}

/// What saving `record` does to the stored profiles, keyed by id: a default
/// record first clears the default mark of every stored profile, then the
/// record takes the place of the profile with its id, or is added.
pub open spec fn profiles_after_save(
    store: Map<Seq<char>, ProviderProfileRecord>,
    record: ProviderProfileRecord,
) -> Map<Seq<char>, ProviderProfileRecord> {
    let cleared = if record.is_default {
        store.map_values(|r: ProviderProfileRecord| undefaulted(r))
    } else {
        store
    };
    cleared.insert(record.id@, record)
}

/// What making the stored profile `id` the default does to the stored
/// profiles: it is marked default and every other profile is not.
pub open spec fn profiles_after_set_default(
    store: Map<Seq<char>, ProviderProfileRecord>,
    id: Seq<char>,
) -> Map<Seq<char>, ProviderProfileRecord> {
    Map::new(
        |k: Seq<char>| store.dom().contains(k),
        |k: Seq<char>|
            if k == id {
                ProviderProfileRecord { is_default: true, ..store[k] }
            } else {
                undefaulted(store[k])
            },
    )
}

/// Saving a profile never makes two stored profiles default where at most
/// one was; a default profile, once saved, is the only default one.
pub proof fn lemma_save_keeps_one_default(
    store: Map<Seq<char>, ProviderProfileRecord>,
    record: ProviderProfileRecord,
)
    requires
        at_most_one_default(store),
    ensures
        at_most_one_default(profiles_after_save(store, record)),
        record.is_default ==> forall|k: Seq<char>|
            #[trigger] is_default_in(profiles_after_save(store, record), k) <==> k == record.id@,
{
    let after = profiles_after_save(store, record);
    assert forall|a: Seq<char>, b: Seq<char>|
        #[trigger] is_default_in(after, a) && #[trigger] is_default_in(after, b) implies a == b by {
        if a != record.id@ && b != record.id@ {
            assert(is_default_in(store, a) && is_default_in(store, b));
        } else if !record.is_default {
            if a != record.id@ {
                assert(is_default_in(store, a));
            }
            if b != record.id@ {
                assert(is_default_in(store, b));
            }
        }
    }
}

/// Every save that the rules of a profile save let through leaves exactly one
/// default profile in a store that had at most one: the saved record is
/// compared against the stored profile of its id (`existing`), and a record
/// with a new id names no stored profile.
pub proof fn lemma_allowed_save_leaves_one_default(
    store: Map<Seq<char>, ProviderProfileRecord>,
    draft: ProfileDraft,
    input_id: Option<String>,
    input_is_default: bool,
    existing: Option<ProviderProfileRecord>,
    encrypted: Option<EncryptedSecret>,
    now: String,
    record: ProviderProfileRecord,
)
    requires
        at_most_one_default(store),
        is_saved_record(
            draft,
            input_id,
            input_is_default,
            existing,
            encrypted,
            has_default_profile(store),
            now,
            Ok(record),
        ),
        existing matches Some(x) ==> store.dom().contains(x.id@) && store[x.id@] == x,
        existing is None ==> !store.dom().contains(record.id@),
    ensures
        at_most_one_default(profiles_after_save(store, record)),
        has_default_profile(profiles_after_save(store, record)),
{
    lemma_save_keeps_one_default(store, record);
    let after = profiles_after_save(store, record);
    if record.is_default {
        assert(is_default_in(after, record.id@));
    } else {
        let d = choose|id: Seq<char>| #[trigger] is_default_in(store, id);
        assert(is_default_in(store, d));
        assert(d != record.id@);
        assert(is_default_in(after, d));
    }
}

/// Making a stored profile the default leaves it the only default one.
pub proof fn lemma_set_default_leaves_one_default(
    store: Map<Seq<char>, ProviderProfileRecord>,
    id: Seq<char>,
)
    requires
        store.dom().contains(id),
    ensures
        forall|k: Seq<char>| #[trigger] is_default_in(profiles_after_set_default(store, id), k) <==> k == id,
        at_most_one_default(profiles_after_set_default(store, id)),
{
}

/// The profile store of a database file.
#[derive(Debug, Clone)]
pub struct ProviderProfileStore {
    db_path: String,
}

impl ProviderProfileStore {
    /// The path of the database file.
    pub closed spec fn path(&self) -> Seq<char> {
        self.db_path@
    }

    /// The store of the database at `db_path`, which the caller has created
    /// with the profile table.
    pub fn new(db_path: String) -> (r: ProviderProfileStore)
        ensures
            r.path() == db_path@,
    {
        ProviderProfileStore { db_path }
    }

    /// The path of the database file.
    pub fn db_path(&self) -> (r: &str)
        ensures
            r@ == self.path(),
    {
        self.db_path.as_str()
    }
}

/// Provider profiles: their store and the box that seals their API keys.
pub struct ProviderSettingsService<S: DataKeyStore> {
    store: ProviderProfileStore,
    secret_box: AesGcmSecretBox<S>,
}

impl<S: DataKeyStore> ProviderSettingsService<S> {
    /// The store of the profiles.
    pub closed spec fn profile_store(&self) -> ProviderProfileStore {
        self.store
    }

    /// A service over `store` sealing keys with `secret_box`.
    pub fn new(store: ProviderProfileStore, secret_box: AesGcmSecretBox<S>) -> (r: ProviderSettingsService<S>)
        ensures
            r.profile_store() == store,
            r.sealer() == secret_box,
    {
        ProviderSettingsService { store, secret_box }
    }

    /// The store of the profiles.
    pub fn store(&self) -> (r: &ProviderProfileStore)
        ensures
            *r == self.profile_store(),
    {
        &self.store
    }

    /// The box that seals the API keys.
    pub closed spec fn sealer(&self) -> AesGcmSecretBox<S> {
        self.secret_box
    }

    /// The box that seals the API keys.
    pub fn secret_box(&self) -> (r: &AesGcmSecretBox<S>)
        ensures
            *r == self.sealer(),
    {
        &self.secret_box
    }
}

} // verus!
