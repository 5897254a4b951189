use argusx::provider_settings::crypto::EncryptedSecret;
use argusx::provider_settings::model::{
    ProviderKind, ProviderProfileRecord, SaveProviderProfileInput, TestProviderProfileInput,
};
use argusx::provider_settings::service::{
    build_models_endpoint, check_deletable, complete_profile, complete_profile_with_id, connection_result, draft_connection_test,
    draft_profile, endpoint_path, existing_profile, normalize_url, profile_not_found, runtime_config_from_profile,
    trim_required, ProviderProfileStore,
};
use argusx::provider_settings::ProviderSettingsError;

fn input(name: &str, base_url: &str, model: &str, api_key: Option<&str>) -> SaveProviderProfileInput {
    SaveProviderProfileInput {
        id: None,
        name: name.to_string(),
        base_url: base_url.to_string(),
        model: model.to_string(),
        api_key: api_key.map(|s| s.to_string()),
        is_default: false,
    }
}

fn existing(is_default: bool) -> ProviderProfileRecord {
    ProviderProfileRecord {
        id: "p1".into(),
        provider_kind: ProviderKind::OpenAiCompatible,
        name: "Old".into(),
        base_url: "https://old.test/".into(),
        model: "m".into(),
        api_key_ciphertext: vec![1, 2, 3],
        api_key_nonce: vec![0; 12],
        is_default,
        created_at: "2024-01-01T00:00:00Z".into(),
        updated_at: "2024-01-01T00:00:00Z".into(),
    }
}

#[test]
fn provider_kind_names() {
    assert_eq!(ProviderKind::OpenAiCompatible.as_str(), "openai_compatible");
    assert_eq!(ProviderKind::parse("openai_compatible"), Some(ProviderKind::OpenAiCompatible));
    assert_eq!(ProviderKind::parse("zai"), None);
}

#[test]
fn required_fields_are_trimmed_or_refused() {
    assert_eq!(trim_required("name", "  x ".into()), Ok("x".to_string()));
    assert_eq!(
        trim_required("model", "   ".into()),
        Err(ProviderSettingsError::Validation("model is required".into()))
    );
    assert_eq!(
        draft_profile(&input(" ", "https://a.test", "m", None)).unwrap_err(),
        ProviderSettingsError::Validation("name is required".into())
    );
    assert_eq!(
        draft_profile(&input("n", "", "m", None)).unwrap_err(),
        ProviderSettingsError::Validation("base_url is required".into())
    );
    assert!(matches!(
        draft_profile(&input("n", "not a url", "m", None)),
        Err(ProviderSettingsError::Validation(_))
    ));
    assert_eq!(
        draft_profile(&input("n", "https://a.test", " ", None)).unwrap_err(),
        ProviderSettingsError::Validation("model is required".into())
    );
    let d = draft_profile(&input(" Name ", "  https://api.test/v1 ", " gpt ", Some("  "))).unwrap();
    assert_eq!(d.name, "Name");
    assert_eq!(d.base_url, "https://api.test/v1");
    assert_eq!(d.model, "gpt");
    assert_eq!(d.api_key, None);
    let d = draft_profile(&input("n", "https://api.test", "m", Some(" sk "))).unwrap();
    assert_eq!(d.api_key.as_deref(), Some("sk"));
    assert_eq!(d.base_url, "https://api.test/");
    assert_eq!(normalize_url(" https://x.test ".into()), Ok("https://x.test/".to_string()));
}

#[test]
fn new_profile_needs_a_key_and_becomes_default_when_none_is() {
    let d = draft_profile(&input("n", "https://api.test", "m", None)).unwrap();
    assert_eq!(
        complete_profile(d.clone(), None, false, None, None, true, "now".into()).unwrap_err(),
        ProviderSettingsError::Validation("api_key is required when creating a provider profile".into())
    );
    let secret = EncryptedSecret { ciphertext: vec![9], nonce: vec![1; 12] };
    let rec = complete_profile(d.clone(), None, false, None, Some(secret.clone()), false, "now".into()).unwrap();
    assert!(rec.is_default);
    assert_eq!(rec.id.len(), 36);
    assert_eq!(rec.created_at, "now");
    assert_eq!(rec.api_key_ciphertext, vec![9]);
    assert_eq!(
        complete_profile(d.clone(), Some("given".into()), false, None, Some(secret.clone()), true, "now".into())
            .unwrap_err(),
        ProviderSettingsError::NotFound("provider profile `given` not found".into())
    );
    let rec = complete_profile(d.clone(), None, false, None, Some(secret), true, "now".into()).unwrap();
    assert!(!rec.is_default);
}

#[test]
fn existing_profile_keeps_id_key_and_default_rules() {
    let d = draft_profile(&input("New", "https://api.test", "m2", None)).unwrap();
    let rec = complete_profile(d.clone(), Some("p1".into()), true, Some(existing(false)), None, true, "later".into()).unwrap();
    assert_eq!(rec.id, "p1");
    assert_eq!(rec.api_key_ciphertext, vec![1, 2, 3]);
    assert_eq!(rec.created_at, "2024-01-01T00:00:00Z");
    assert_eq!(rec.updated_at, "later");
    assert!(rec.is_default);
    assert_eq!(rec.summary().name, "New");
    assert_eq!(
        complete_profile(d, Some("p1".into()), false, Some(existing(true)), None, true, "later".into()).unwrap_err(),
        ProviderSettingsError::Validation("default profile cannot be unset without selecting another default".into())
    );
}

#[test]
fn delete_rules() {
    assert_eq!(
        check_deletable(None, "p9"),
        Err(ProviderSettingsError::NotFound("provider profile `p9` not found".into()))
    );
    assert_eq!(
        check_deletable(Some(&existing(true)), "p1"),
        Err(ProviderSettingsError::Validation("default provider profile cannot be deleted".into()))
    );
    assert_eq!(check_deletable(Some(&existing(false)), "p1"), Ok(()));
    assert_eq!(profile_not_found("x").to_string(), "provider profile `x` not found");
    let cfg = runtime_config_from_profile(existing(true), "sk".into());
    assert_eq!(cfg.api_key, "sk");
    assert_eq!(cfg.model, "m");
}

#[test]
fn models_endpoint_paths() {
    assert_eq!(endpoint_path("/"), "/models");
    assert_eq!(endpoint_path(""), "/models");
    assert_eq!(endpoint_path("/v1"), "/v1/models");
    assert_eq!(endpoint_path("/v1/"), "/v1/models");
    assert_eq!(endpoint_path("/v1/models"), "/v1/models");
    assert_eq!(endpoint_path("/v1/models//"), "/v1/models");
    assert_eq!(build_models_endpoint("https://api.test/v1/").unwrap().as_str(), "https://api.test/v1/models");
    assert_eq!(build_models_endpoint("https://api.test").unwrap().as_str(), "https://api.test/models");
    assert!(build_models_endpoint("::").is_err());
}

#[test]
fn models_endpoint_keeps_host_and_query() {
    let endpoint = build_models_endpoint("https://api.test/v1?x=1").unwrap();
    assert_eq!(endpoint.as_str(), "https://api.test/v1/models?x=1");
    assert_eq!(endpoint.host_name(), Some("api.test"));
    assert_eq!(endpoint.path_str(), "/v1/models");
}

#[test]
fn connection_tests() {
    let t = TestProviderProfileInput { base_url: " https://api.test/v1 ".into(), model: "m".into(), api_key: " sk ".into() };
    assert_eq!(draft_connection_test(&t), Ok(("https://api.test/v1".to_string(), "sk".to_string())));
    let t = TestProviderProfileInput { base_url: "https://api.test".into(), model: " ".into(), api_key: "sk".into() };
    assert_eq!(draft_connection_test(&t).unwrap_err(), ProviderSettingsError::Validation("model is required".into()));
    let t = TestProviderProfileInput { base_url: "https://api.test".into(), model: "m".into(), api_key: "".into() };
    assert_eq!(draft_connection_test(&t).unwrap_err(), ProviderSettingsError::Validation("api_key is required".into()));
    let ok = connection_result(true, "200 OK", None);
    assert!(ok.success);
    assert_eq!(ok.message, "connection succeeded");
    let bad = connection_result(false, "401 Unauthorized", Some("  denied \n".into()));
    assert_eq!(bad.message, "401 Unauthorized: denied");
    assert_eq!(connection_result(false, "500 Internal Server Error", None).message, "500 Internal Server Error: empty response");
}


#[test]
fn profile_store_keeps_its_path() {
    let store = ProviderProfileStore::new("/tmp/profiles.sqlite3".to_string());
    assert_eq!(store.db_path(), "/tmp/profiles.sqlite3");
}

#[test]
fn requested_profile_must_exist() {
    assert_eq!(existing_profile(&None, None), Ok(None));
    assert_eq!(existing_profile(&Some("p1".into()), Some(existing(false))), Ok(Some(existing(false))));
    assert_eq!(
        existing_profile(&Some("p9".into()), None),
        Err(ProviderSettingsError::NotFound("provider profile `p9` not found".into()))
    );
}

#[test]
fn a_new_profile_takes_the_given_id() {
    let d = draft_profile(&input("Name", "https://api.test/v1", "m", Some("k"))).unwrap();
    let secret = EncryptedSecret { ciphertext: vec![9], nonce: vec![1; 12] };
    let rec = complete_profile_with_id(d.clone(), None, false, None, Some(secret.clone()), true, "now".into(), "p-new".into())
        .unwrap();
    assert_eq!(rec.id, "p-new");
    let kept = complete_profile_with_id(d, Some("p1".into()), false, Some(existing(false)), None, true, "now".into(), "unused".into())
        .unwrap();
    assert_eq!(kept.id, "p1");
}
