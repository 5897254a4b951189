use argusx::provider_settings::crypto::{
    created_key, open_secret, seal_secret, seal_with_nonce as seal_profile_key_with_nonce, slice_to_key, stored_key, AesGcmSecretBox, DataKeyStore,
    EncryptedSecret, KeyringDataKeyStore,
};
use argusx::provider_settings::ProviderSettingsError;
use argusx::secure_config::crypto::{
    decrypt_secret, derive_key_from_fingerprint, encrypt_secret, seal_with_nonce, CipherEnvelope, CryptoError,
};
use argusx::secure_config::host_fingerprint::{derive_fingerprint, HostFingerprintError};

#[test]
fn derive_key_is_stable_for_same_fingerprint() {
    let a = derive_key_from_fingerprint("fp-1").expect("derive key a");
    let b = derive_key_from_fingerprint("fp-1").expect("derive key b");
    assert_eq!(a, b);
}

#[test]
fn encrypt_decrypt_roundtrip() {
    let key = derive_key_from_fingerprint("fp").expect("derive key");
    let cipher = encrypt_secret(&key, "sk-test").expect("encrypt");
    let plain = decrypt_secret(&key, &cipher).expect("decrypt");
    assert_eq!(plain, "sk-test");
}

#[test]
fn decrypt_fails_with_different_key() {
    let key_a = derive_key_from_fingerprint("fp-a").expect("derive key a");
    let key_b = derive_key_from_fingerprint("fp-b").expect("derive key b");
    let cipher = encrypt_secret(&key_a, "secret-value").expect("encrypt");
    let err = decrypt_secret(&key_b, &cipher).expect_err("must fail");
    assert!(matches!(err, CryptoError::CipherOperation));
}

#[test]
fn fingerprint_is_stable_for_same_input() {
    let a = derive_fingerprint("00:11:22:33:44:55", "my-host");
    let b = derive_fingerprint("00:11:22:33:44:55", "my-host");
    assert_eq!(a, b);
}

#[test]
fn fingerprint_changes_when_input_changes() {
    let a = derive_fingerprint("00:11:22:33:44:55", "my-host");
    let b = derive_fingerprint("00:11:22:33:44:56", "my-host");
    assert_ne!(a, b);
}

#[test]
fn fingerprint_ignores_notation_of_address_and_host() {
    let a = derive_fingerprint("00-11-22-AA-BB-CC", "  My-Host ");
    let b = derive_fingerprint("00:11:22:aa:bb:cc", "my-host");
    assert_eq!(a, b);
    assert_eq!(a.len(), 64);
    assert!(a.chars().all(|c| c.is_ascii_hexdigit() && !c.is_ascii_uppercase()));
}

#[test]
fn derived_key_ignores_surrounding_whitespace_and_depends_on_fingerprint() {
    let a = derive_key_from_fingerprint("  fp-1\n").expect("derive");
    let b = derive_key_from_fingerprint("fp-1").expect("derive");
    let c = derive_key_from_fingerprint("fp-2").expect("derive");
    assert_eq!(a, b);
    assert_ne!(a, c);
}

#[test]
fn envelope_has_version_algorithm_and_base64_fields() {
    let key = derive_key_from_fingerprint("fp").expect("derive");
    let e = encrypt_secret(&key, "sk-test").expect("encrypt");
    assert_eq!(e.v, 1);
    assert_eq!(e.algo, "aes-256-gcm");
    assert_eq!(e.nonce_b64.len(), 16);
    assert!(!e.ciphertext_b64.contains('='));
    assert_ne!(e.ciphertext_b64, "sk-test");
}

#[test]
fn decrypt_rejects_bad_envelopes_in_order() {
    let key = derive_key_from_fingerprint("fp").expect("derive");
    let good = encrypt_secret(&key, "v").expect("encrypt");
    let mut e = good.clone();
    e.v = 2;
    assert_eq!(decrypt_secret(&key, &e), Err(CryptoError::InvalidVersion(2)));
    assert_eq!(
        CryptoError::InvalidVersion(2).to_string(),
        "invalid cipher envelope version: 2"
    );
    let mut e = good.clone();
    e.algo = "rot13".into();
    assert_eq!(decrypt_secret(&key, &e), Err(CryptoError::UnsupportedAlgorithm("rot13".into())));
    let mut e = good.clone();
    e.nonce_b64 = "!!".into();
    assert!(matches!(decrypt_secret(&key, &e), Err(CryptoError::NonceDecode(_))));
    let mut e = good.clone();
    e.nonce_b64 = "AAAA".into();
    let err = decrypt_secret(&key, &e).expect_err("short nonce");
    assert_eq!(err, CryptoError::InvalidNonceLength { expected: 12, actual: 3 });
    assert_eq!(err.to_string(), "invalid nonce length: expected 12, got 3");
    let mut e = good.clone();
    e.ciphertext_b64 = "*".into();
    assert!(matches!(decrypt_secret(&key, &e), Err(CryptoError::CipherDecode(_))));
    let e = CipherEnvelope { ciphertext_b64: "AAAA".into(), ..good };
    assert_eq!(decrypt_secret(&key, &e), Err(CryptoError::CipherOperation));
}

#[test]
fn provider_secret_roundtrip_and_key_length() {
    let key = [7u8; 32];
    let sealed = seal_secret(&key, "api-key").expect("seal");
    assert_eq!(sealed.nonce.len(), 12);
    assert_eq!(open_secret(&key, &sealed).expect("open"), "api-key");
    let other = [8u8; 32];
    assert!(matches!(open_secret(&other, &sealed), Err(ProviderSettingsError::Crypto(_))));
    let tampered = EncryptedSecret { ciphertext: vec![1, 2, 3], nonce: sealed.nonce.clone() };
    assert!(open_secret(&key, &tampered).is_err());
    assert_eq!(slice_to_key(&[9u8; 32]).expect("key"), [9u8; 32]);
    assert_eq!(
        slice_to_key(&[1u8; 5]),
        Err(ProviderSettingsError::SecureStorage(
            "stored encryption key has invalid length".to_string()
        ))
    );
}

#[test]
fn keyring_answers_decide_the_data_key() {
    assert_eq!(stored_key(Ok(Some(vec![4u8; 32]))), Ok(Some([4u8; 32])));
    assert_eq!(
        stored_key(Ok(Some(vec![4u8; 31]))),
        Err(ProviderSettingsError::SecureStorage(
            "stored encryption key has invalid length".to_string()
        ))
    );
    assert_eq!(stored_key(Ok(None)), Ok(None));
    assert_eq!(
        stored_key(Err("locked".to_string())),
        Err(ProviderSettingsError::SecureStorage("locked".to_string()))
    );
    assert_eq!(created_key([6u8; 32], Ok(())), Ok([6u8; 32]));
    assert_eq!(
        created_key([6u8; 32], Err("denied".to_string())),
        Err(ProviderSettingsError::SecureStorage("denied".to_string()))
    );
}

#[test]
fn keyring_entry_names() {
    let store = KeyringDataKeyStore::default();
    assert_eq!(store.service(), "argusx.desktop.provider_settings");
    assert_eq!(store.user(), "data-encryption-key");
}


/// A key store with a fixed key, or one that always fails.
struct FixedKey(Option<[u8; 32]>);

impl DataKeyStore for FixedKey {
    fn load_or_create_key(&self) -> Result<[u8; 32], ProviderSettingsError> {
        self.0.ok_or_else(|| ProviderSettingsError::SecureStorage("locked".to_string()))
    }
}

#[test]
fn secret_box_roundtrips_under_one_key() {
    let sealer = AesGcmSecretBox::new(FixedKey(Some([7u8; 32])));
    let sealed = sealer.encrypt("sk-box").expect("seal");
    assert_eq!(sealed.nonce.len(), 12);
    assert_eq!(sealer.decrypt(&sealed).expect("open"), "sk-box");

    let other = AesGcmSecretBox::new(FixedKey(Some([8u8; 32])));
    assert!(matches!(other.decrypt(&sealed), Err(ProviderSettingsError::Crypto(_))));
}

#[test]
fn secret_box_passes_on_key_store_failures() {
    let locked = AesGcmSecretBox::new(FixedKey(None));
    assert_eq!(locked.encrypt("x"), Err(ProviderSettingsError::SecureStorage("locked".to_string())));
    let sealed = EncryptedSecret { ciphertext: vec![1, 2, 3], nonce: vec![0; 12] };
    assert_eq!(locked.decrypt(&sealed), Err(ProviderSettingsError::SecureStorage("locked".to_string())));
}

#[test]
fn host_fingerprint_error_texts() {
    assert_eq!(HostFingerprintError::NoMacAddress.to_string(), "no machine address available on this host");
    assert_eq!(
        HostFingerprintError::HostnameLookup("denied".into()).to_string(),
        "failed to read hostname: denied"
    );
    assert_eq!(HostFingerprintError::HostnameUtf8.to_string(), "hostname is not valid UTF-8");
    assert_eq!(
        HostFingerprintError::MacLookup("no ifaces".into()).to_string(),
        "failed to inspect local machine address: no ifaces"
    );
}

#[test]
fn sealing_with_a_given_nonce_keeps_it() {
    let key = [3u8; 32];
    let e = seal_with_nonce(&key, &[7u8; 12], "secret").expect("seal");
    assert_eq!(e.v, 1);
    assert_eq!(e.algo, "aes-256-gcm");
    assert_eq!(e.nonce_b64, "BwcHBwcHBwcHBwcH");
    assert_eq!(decrypt_secret(&key, &e).expect("open"), "secret");
    assert_eq!(seal_with_nonce(&key, &[7u8; 12], "secret"), Ok(e));

    let sealed = seal_profile_key_with_nonce(&key, vec![9u8; 12], "api-key").expect("seal");
    assert_eq!(sealed.nonce, vec![9u8; 12]);
    assert_eq!(open_secret(&key, &sealed).expect("open"), "api-key");
    assert_eq!(seal_profile_key_with_nonce(&key, vec![9u8; 12], "api-key"), Ok(sealed));
}
