use argusx::llm_runtime_config::{
    list_available_models, normalize_runtime_config, validate_turn_selection, HeaderPair,
    LlmRuntimeConfig, ProviderConfigs, ProviderId, ProviderRuntimeConfig,
};
use argusx::persistence::runtime_config::{
    load_config, prepare_save, prepare_save_with_nonces, ProviderRow, RuntimeConfigRepoError, RuntimeConfigSave,
    StoredProviderRow,
};
use argusx::secure_config::crypto::CipherEnvelope;
use argusx::system_prompt::{resolve_desktop_system_prompt, DEFAULT_DESKTOP_SYSTEM_PROMPT};

#[test]
fn normalize_and_available_models_work() {
    let cfg = LlmRuntimeConfig {
        default_provider: Some(ProviderId::Bigmodel),
        providers: ProviderConfigs {
            bigmodel: ProviderRuntimeConfig {
                api_key: "".into(),
                base_url: "https://bigmodel.provider.test/v1".into(),
                models: vec!["glm-5".into()],
                headers: vec![],
            },
            openai: ProviderRuntimeConfig {
                api_key: " sk ".into(),
                base_url: " https://openai.provider.test/v1/ ".into(),
                models: vec![" gpt-4o ".into(), "gpt-4o".into()],
                headers: vec![
                    HeaderPair {
                        key: " X-Test ".into(),
                        value: "1".into(),
                    },
                    HeaderPair {
                        key: "X-Test".into(),
                        value: "2".into(),
                    },
                ],
            },
            anthropic: ProviderRuntimeConfig::default(),
        },
    };

    let normalized = normalize_runtime_config(cfg);
    assert_eq!(normalized.default_provider, Some(ProviderId::Openai));
    assert_eq!(
        normalized.providers.openai.base_url,
        "https://openai.provider.test/v1"
    );
    assert_eq!(normalized.providers.openai.models, vec!["gpt-4o"]);
    assert_eq!(normalized.providers.openai.headers.len(), 1);
    assert_eq!(normalized.providers.openai.headers[0].key, "X-Test");
    assert_eq!(normalized.providers.openai.headers[0].value, "2");

    let models = list_available_models(&normalized);
    assert_eq!(models.len(), 1);
    assert!(matches!(models[0].provider, ProviderId::Openai));
    assert_eq!(models[0].model, "gpt-4o");
}

#[test]
fn validate_turn_selection_checks_provider_and_model() {
    let cfg = normalize_runtime_config(LlmRuntimeConfig {
        default_provider: Some(ProviderId::Openai),
        providers: ProviderConfigs {
            openai: ProviderRuntimeConfig {
                api_key: "sk".into(),
                base_url: "https://openai.provider.test/v1".into(),
                models: vec!["gpt-4o".into()],
                headers: vec![],
            },
            ..ProviderConfigs::default()
        },
    });

    let missing_provider = validate_turn_selection(&cfg, &ProviderId::Anthropic, "sonnet");
    assert!(missing_provider.is_err());

    let missing_model = validate_turn_selection(&cfg, &ProviderId::Openai, "gpt-5");
    assert!(missing_model.is_err());

    let ok = validate_turn_selection(&cfg, &ProviderId::Openai, "gpt-4o");
    assert!(ok.is_ok());
}

#[test]
fn validate_turn_selection_messages() {
    let cfg = normalize_runtime_config(LlmRuntimeConfig {
        default_provider: None,
        providers: ProviderConfigs {
            openai: ProviderRuntimeConfig {
                api_key: "sk".into(),
                base_url: "https://openai.provider.test/v1".into(),
                models: vec!["gpt-4o".into()],
                headers: vec![],
            },
            ..ProviderConfigs::default()
        },
    });
    assert_eq!(
        validate_turn_selection(&cfg, &ProviderId::Openai, "gpt-5"),
        Err("model 'gpt-5' is not enabled for provider 'openai'".to_string())
    );
    assert_eq!(cfg.default_provider, Some(ProviderId::Openai));
}

#[test]
fn normalized_config_without_usable_provider_has_no_default() {
    let cfg = normalize_runtime_config(LlmRuntimeConfig {
        default_provider: Some(ProviderId::Anthropic),
        providers: ProviderConfigs::default(),
    });
    assert_eq!(cfg.default_provider, None);
    assert!(list_available_models(&cfg).is_empty());
}

#[test]
fn resolve_desktop_system_prompt_uses_override_when_present() {
    let prompt = resolve_desktop_system_prompt(Some("  custom prompt  "));
    assert_eq!(prompt, "custom prompt");
}

#[test]
fn resolve_desktop_system_prompt_falls_back_to_default_profile() {
    let prompt = resolve_desktop_system_prompt(None);
    assert!(prompt.contains("update_plan"));
    assert!(prompt.contains("SRE"));
}

#[test]
fn blank_prompt_override_falls_back_to_default() {
    assert_eq!(resolve_desktop_system_prompt(Some("   ")), DEFAULT_DESKTOP_SYSTEM_PROMPT);
}

fn sample_runtime_config() -> LlmRuntimeConfig {
    LlmRuntimeConfig {
        default_provider: Some(ProviderId::Openai),
        providers: ProviderConfigs {
            openai: ProviderRuntimeConfig {
                api_key: "sk-openai-test".to_string(),
                base_url: "https://openai.provider.test/v1".to_string(),
                models: vec!["gpt-4o".to_string()],
                headers: vec![HeaderPair {
                    key: "X-Test".to_string(),
                    value: "1".to_string(),
                }],
            },
            ..ProviderConfigs::default()
        },
    }
}

fn envelope_json(e: &CipherEnvelope) -> String {
    let mut m = serde_json::Map::new();
    m.insert("v".to_string(), serde_json::Value::from(e.v));
    m.insert("algo".to_string(), serde_json::Value::from(e.algo.clone()));
    m.insert("nonce_b64".to_string(), serde_json::Value::from(e.nonce_b64.clone()));
    m.insert(
        "ciphertext_b64".to_string(),
        serde_json::Value::from(e.ciphertext_b64.clone()),
    );
    serde_json::Value::Object(m).to_string()
}

/// The rows of a save as a database gives them back.
fn stored_rows(plan: &RuntimeConfigSave) -> Vec<StoredProviderRow> {
    plan.rows
        .iter()
        .map(|row| StoredProviderRow {
            provider_id: row.provider.as_adapter_id().to_string(),
            base_url: row.base_url.clone(),
            models_json: row.models_json.clone(),
            headers: Ok(row.headers.clone()),
            api_key_cipher_json: row
                .api_key_cipher
                .as_ref()
                .map(envelope_json)
                .unwrap_or_default(),
            api_key_cipher: row
                .api_key_cipher
                .clone()
                .ok_or_else(|| "EOF while parsing a value at line 1 column 0".to_string()),
        })
        .collect()
}

fn openai_row(plan: &RuntimeConfigSave) -> &ProviderRow {
    plan.rows
        .iter()
        .find(|r| r.provider == ProviderId::Openai)
        .expect("openai row")
}

#[test]
fn runtime_config_repo_encrypts_api_key_at_rest() {
    let config = sample_runtime_config();
    let plan = prepare_save(config, "fp-a").expect("save config");
    let cipher = openai_row(&plan).api_key_cipher.as_ref().expect("sealed key");
    let cipher_json = envelope_json(cipher);

    assert!(!cipher_json.is_empty());
    assert!(!cipher_json.contains("sk-openai-test"));
}

#[test]
fn runtime_config_repo_roundtrips_with_same_fingerprint() {
    let config = sample_runtime_config();
    let plan = prepare_save(config, "fp-a").expect("save config");
    let default_id = plan.default_provider.clone();
    let loaded = load_config("fp-a", default_id, stored_rows(&plan))
        .expect("load config")
        .expect("config exists");

    assert_eq!(loaded.default_provider, Some(ProviderId::Openai));
    assert_eq!(loaded.providers.openai.api_key, "sk-openai-test");
    assert_eq!(
        loaded.providers.openai.base_url,
        "https://openai.provider.test/v1"
    );
    assert_eq!(loaded.providers.openai.models, vec!["gpt-4o"]);
}

#[test]
fn runtime_config_repo_rejects_mismatched_fingerprint() {
    let config = sample_runtime_config();
    let plan = prepare_save(config, "fp-a").expect("save config");
    let default_id = plan.default_provider.clone();
    let err = load_config("fp-b", default_id, stored_rows(&plan))
        .expect_err("must reject mismatched fingerprint");
    assert!(matches!(err, RuntimeConfigRepoError::FingerprintMismatch));
}

#[test]
fn save_writes_rows_in_provider_order_with_blank_keys_unsealed() {
    let plan = prepare_save(sample_runtime_config(), "fp-a").expect("save config");
    let ids: Vec<&str> = plan.rows.iter().map(|r| r.provider.as_adapter_id()).collect();
    assert_eq!(ids, vec!["bigmodel", "openai", "anthropic"]);
    assert!(plan.rows[0].api_key_cipher.is_none());
    assert!(plan.rows[2].api_key_cipher.is_none());
    assert_eq!(plan.rows[1].models_json, "[\"gpt-4o\"]");
    assert_eq!(plan.default_provider.as_deref(), Some("openai"));
}

#[test]
fn load_with_nothing_stored_gives_nothing() {
    assert!(load_config("fp-a", None, Vec::new()).expect("load").is_none());
}

#[test]
fn load_with_only_a_default_gives_an_empty_config() {
    let cfg = load_config("fp-a", Some("openai".to_string()), Vec::new())
        .expect("load")
        .expect("config exists");
    // Nothing usable is stored, so normalization drops the default.
    assert_eq!(cfg.default_provider, None);
    assert!(cfg.providers.openai.api_key.is_empty());
}

#[test]
fn load_refuses_an_unknown_default_provider() {
    let err = load_config("fp-a", Some("mistral".to_string()), Vec::new()).expect_err("refused");
    assert_eq!(err, RuntimeConfigRepoError::InvalidProviderId("mistral".to_string()));
    assert_eq!(err.to_string(), "invalid provider id in storage: mistral");
}

#[test]
fn load_refuses_bad_rows_with_their_own_errors() {
    let plan = prepare_save(sample_runtime_config(), "fp-a").expect("save config");

    let mut rows = stored_rows(&plan);
    rows[0].provider_id = "zai".to_string();
    let err = load_config("fp-a", None, rows).expect_err("unknown provider");
    assert_eq!(err, RuntimeConfigRepoError::InvalidProviderId("zai".to_string()));

    let mut rows = stored_rows(&plan);
    rows[1].models_json = "not json".to_string();
    let err = load_config("fp-a", None, rows).expect_err("bad models");
    assert!(matches!(err, RuntimeConfigRepoError::Serde(_)));

    let mut rows = stored_rows(&plan);
    rows[1].headers = Err("bad headers".to_string());
    let err = load_config("fp-a", None, rows).expect_err("bad headers");
    assert_eq!(err, RuntimeConfigRepoError::Serde("bad headers".to_string()));

    let mut rows = stored_rows(&plan);
    rows[1].api_key_cipher = Err("bad envelope".to_string());
    let err = load_config("fp-a", None, rows).expect_err("bad envelope");
    assert_eq!(err, RuntimeConfigRepoError::Serde("bad envelope".to_string()));
}

#[test]
fn reloading_normalizes_again() {
    // A base URL whose trimmed form still ends in a slash changes on each save.
    let mut config = sample_runtime_config();
    config.providers.openai.base_url = "https://h.test/v1/ /".to_string();
    let plan = prepare_save(config, "fp-a").expect("save config");
    assert_eq!(openai_row(&plan).base_url, "https://h.test/v1/ ");
    let loaded = load_config("fp-a", plan.default_provider.clone(), stored_rows(&plan))
        .expect("load")
        .expect("config exists");
    assert_eq!(loaded.providers.openai.base_url, "https://h.test/v1");
}

#[test]
fn normalizing_keeps_the_header_map() {
    let mut provider = ProviderRuntimeConfig {
        api_key: " key ".into(),
        base_url: "https://api.test/".into(),
        models: vec!["m".into()],
        headers: vec![
            HeaderPair { key: " X-A ".into(), value: "1".into() },
            HeaderPair { key: "  ".into(), value: "blank".into() },
            HeaderPair { key: "X-B".into(), value: "2".into() },
            HeaderPair { key: "X-A".into(), value: " 3 ".into() },
        ],
    };
    let before = provider.header_map();
    provider.normalize();
    let after = provider.header_map();
    assert_eq!(after.len(), 2);
    assert_eq!(before.len(), 2);
    assert_eq!(after.get("X-A"), Some(&" 3 ".to_string()));
    assert_eq!(before.get("X-A"), after.get("X-A"));
    assert_eq!(before.get("X-B"), after.get("X-B"));
    assert_eq!(provider.headers.len(), 2);
    assert_eq!(provider.headers[0].key, "X-B");
    assert_eq!(provider.headers[1].key, "X-A");
}

#[test]
fn save_with_given_nonces_seals_each_key_with_its_nonce() {
    let nonces = vec![vec![1u8; 12], vec![2u8; 12], vec![3u8; 12]];
    let plan = prepare_save_with_nonces(sample_runtime_config(), "fp-a", &nonces).expect("save config");
    assert_eq!(plan.rows.len(), 3);
    assert!(plan.rows[0].api_key_cipher.is_none());
    assert_eq!(plan.rows[1].api_key_cipher.as_ref().unwrap().nonce_b64, "AgICAgICAgICAgIC");
    assert!(plan.rows[2].api_key_cipher.is_none());
    let again = prepare_save_with_nonces(sample_runtime_config(), "fp-a", &nonces).expect("save config");
    assert_eq!(again.rows[1].api_key_cipher, plan.rows[1].api_key_cipher);
}
