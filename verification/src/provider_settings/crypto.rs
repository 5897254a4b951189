//! Sealing profile API keys with AES-256-GCM under a data key, and the
//! keyring entry that holds that key.
use vstd::prelude::*;

use crate::primitives::{aes256gcm_open, aes256gcm_seal, aes_gcm_decrypt, aes_gcm_encrypt, keyring_entry,
    keyring_get_secret, keyring_set_secret, random_bytes, random_unavailable_message, KeyringEntry,
    utf8_string, AES_GCM_MAX_PLAINTEXT};
use crate::provider_settings::ProviderSettingsError;
use crate::text::owned;
use vstd::string::StringSliceAdditionalSpecFns;
use vstd::utf8::{decode_utf8, encode_utf8, valid_utf8};

verus! {

/// A sealed secret: its ciphertext and the nonce it was sealed with.
#[derive(Debug, Clone, PartialEq, Eq)]
pub struct EncryptedSecret {
    pub ciphertext: Vec<u8>,
    pub nonce: Vec<u8>,
}

/// Whether `e` seals `plaintext` under `key`: a 12-byte nonce and the
/// plaintext's UTF-8 bytes sealed with it.
pub open spec fn seals(key: Seq<u8>, e: EncryptedSecret, plaintext: Seq<char>) -> bool {
    &&& e.nonce@.len() == 12
    &&& encode_utf8(plaintext).len() <= AES_GCM_MAX_PLAINTEXT
    &&& e.ciphertext@ == aes256gcm_seal(key, e.nonce@, encode_utf8(plaintext))
}

/// Seals a secret under `key` with the 12-byte `nonce`: the plaintext's
/// UTF-8 bytes sealed with AES-256-GCM, beside the nonce. A plaintext too
/// long for the cipher is refused with the cipher's text.
pub fn seal_with_nonce(key: &[u8; 32], nonce: Vec<u8>, plaintext: &str) -> (r: Result<
    EncryptedSecret,
    ProviderSettingsError,
>)
    requires
        nonce@.len() == 12,
    ensures
        (r is Ok) == (plaintext.spec_bytes().len() <= AES_GCM_MAX_PLAINTEXT),
        r matches Ok(e) ==> e.nonce@ == nonce@ && e.ciphertext@ == aes256gcm_seal(
            key@,
            nonce@,
            plaintext.spec_bytes(),
        ),
        r matches Ok(e) ==> seals(key@, e, plaintext@),
        r matches Err(e) ==> e matches ProviderSettingsError::Crypto(m) && m@ == "aead::Error"@,
{
    match aes_gcm_encrypt(key, nonce.as_slice(), plaintext.as_bytes()) {
        Ok(ciphertext) => Ok(EncryptedSecret { ciphertext, nonce }),
        Err(m) => Err(ProviderSettingsError::Crypto(m)),
    }
}

/// Seals a secret under `key` with a fresh random nonce (see
/// `seal_with_nonce`); a failure of the random source is reported with its
/// own message.
pub fn seal_secret(key: &[u8; 32], plaintext: &str) -> (r: Result<EncryptedSecret, ProviderSettingsError>)
    ensures
        r matches Ok(e) ==> seals(key@, e, plaintext@),
        r matches Err(e) ==> e matches ProviderSettingsError::Crypto(m) && (m@ == "aead::Error"@ || m@
            == random_unavailable_message()),
        (r matches Err(ProviderSettingsError::Crypto(m)) && m@ == "aead::Error"@) ==> plaintext.spec_bytes().len()
            > AES_GCM_MAX_PLAINTEXT,
        plaintext.spec_bytes().len() > AES_GCM_MAX_PLAINTEXT ==> r is Err,
{
    match random_bytes(12) {
        Some(nonce) => seal_with_nonce(key, nonce, plaintext),
        None => {
            proof {
                reveal_strlit("aead::Error");
                reveal_strlit("the system's random source is unavailable");
                assert("aead::Error"@.len() == 11);
                assert("the system's random source is unavailable"@.len() == 41);
            }
            Err(ProviderSettingsError::Crypto(owned("the system's random source is unavailable")))
        },
    }
}

/// Opens a sealed secret under `key`; the nonce must be 12 bytes long. A
/// tag that does not verify or bytes that are not UTF-8 are reported as
/// crypto errors. What was sealed under a key opens under it to the secret.
pub fn open_secret(key: &[u8; 32], encrypted: &EncryptedSecret) -> (r: Result<String, ProviderSettingsError>)
    requires
        encrypted.nonce@.len() == 12,
    ensures
        r matches Ok(s) ==> exists|p: Seq<u8>|
            crate::primitives::aes256gcm_open(key@, encrypted.nonce@, encrypted.ciphertext@) == Some(p)
                && valid_utf8(p) && s@ == decode_utf8(p),
        r matches Err(e) ==> e is Crypto,
        forall|plaintext: Seq<char>|
            #[trigger] seals(key@, *encrypted, plaintext) ==> (r matches Ok(s) && s@ == plaintext),
{
    let plain = match aes_gcm_decrypt(key, encrypted.nonce.as_slice(), encrypted.ciphertext.as_slice()) {
        Ok(p) => p,
        Err(m) => {
            return Err(ProviderSettingsError::Crypto(m));
        },
    };
    let ghost bytes = plain@;
    match utf8_string(plain) {
        Ok(text) => {
            proof {
                assert forall|plaintext: Seq<char>| #[trigger]
                    seals(key@, *encrypted, plaintext) implies text@ == plaintext by {
                    vstd::utf8::encode_utf8_decode_utf8(plaintext);
                }
            }
            Ok(text)
        },
        Err(m) => {
            proof {
                assert forall|plaintext: Seq<char>| #[trigger]
                    seals(key@, *encrypted, plaintext) implies false by {
                    vstd::utf8::encode_utf8_valid_utf8(plaintext);
                }
            }
            Err(ProviderSettingsError::Crypto(m))
        },
    }
}

/// The keyring entry that holds the data key: its service and user.
#[derive(Debug)]
pub struct KeyringDataKeyStore {
    service: String,
    user: String,
}

impl KeyringDataKeyStore {
    /// The keyring service of the entry.
    pub closed spec fn service_name(&self) -> Seq<char> {
        self.service@
    }

    /// The keyring user of the entry.
    pub closed spec fn user_name(&self) -> Seq<char> {
        self.user@
    }

    /// The keyring service of the entry.
    pub fn service(&self) -> (r: &str)
        ensures
            r@ == self.service_name(),
    {
        self.service.as_str()
    }

    /// The keyring user of the entry.
    pub fn user(&self) -> (r: &str)
        ensures
            r@ == self.user_name(),
    {
        self.user.as_str()
    }
}

impl Default for KeyringDataKeyStore {
    fn default() -> (r: KeyringDataKeyStore)
        ensures
            r.service_name() == "argusx.desktop.provider_settings"@,
            r.user_name() == "data-encryption-key"@,
    {
        KeyringDataKeyStore {
            service: owned("argusx.desktop.provider_settings"),
            user: owned("data-encryption-key"),
        }
    }
}

/// The data key read from the keyring: exactly 32 bytes, else refused.
pub fn slice_to_key(value: &[u8]) -> (r: Result<[u8; 32], ProviderSettingsError>)
    ensures
        value@.len() == 32 ==> (r matches Ok(k) && k@ == value@),
        value@.len() != 32 ==> (r matches Err(ProviderSettingsError::SecureStorage(m)) && m@
            == "stored encryption key has invalid length"@),
{
    if value.len() != 32 {
        return Err(
            ProviderSettingsError::SecureStorage(owned("stored encryption key has invalid length")),
        );
    }
    let mut key = [0u8; 32];
    let mut i: usize = 0;
    while i < 32
        invariant
            i <= 32,
            value@.len() == 32,
            forall|j: int| 0 <= j < i ==> key@[j] == value@[j],
        decreases 32 - i,
    {
        key.set(i, value[i]);
        i = i + 1;
    }
    assert(key@ =~= value@);
    Ok(key)
}


/// The text of the error for a stored data key of the wrong length.
pub open spec fn invalid_key_length_message() -> Seq<char> {
    "stored encryption key has invalid length"@
}

/// What the keyring's answer to a read of the data key entry makes of the
/// data key: a stored secret of 32 bytes is the key, one of another length is
/// refused, no stored secret leaves the key to be created, and a failure of
/// the secure storage is reported with its text.
pub fn stored_key(answer: Result<Option<Vec<u8>>, String>) -> (r: Result<
    Option<[u8; 32]>,
    ProviderSettingsError,
>)
    ensures
        answer matches Ok(Some(s)) ==> (s@.len() == 32 ==> (r matches Ok(Some(k)) && k@ == s@)),
        answer matches Ok(Some(s)) ==> (s@.len() != 32 ==> (r matches Err(
            ProviderSettingsError::SecureStorage(m),
        ) && m@ == invalid_key_length_message())),
        answer is Ok && answer->Ok_0 is None ==> r matches Ok(None),
        answer matches Err(m) ==> (r matches Err(ProviderSettingsError::SecureStorage(n)) && n == m),
{
    match answer {
        Ok(Some(secret)) => match slice_to_key(secret.as_slice()) {
            Ok(key) => Ok(Some(key)),
            Err(e) => Err(e),
        },
        Ok(None) => Ok(None),
        Err(m) => Err(ProviderSettingsError::SecureStorage(m)),
    }
}

/// What the keyring's answer to storing a freshly created data key makes of
/// it: the key once the storage accepted it, else the storage's failure.
pub fn created_key(key: [u8; 32], answer: Result<(), String>) -> (r: Result<
    [u8; 32],
    ProviderSettingsError,
>)
    ensures
        answer is Ok ==> r == Ok::<[u8; 32], ProviderSettingsError>(key),
        answer matches Err(m) ==> (r matches Err(ProviderSettingsError::SecureStorage(n)) && n == m),
{
    match answer {
        Ok(()) => Ok(key),
        Err(m) => Err(ProviderSettingsError::SecureStorage(m)),
    }
}

impl KeyringDataKeyStore {
    /// Opens the keyring entry of this store: the one for its service and
    /// user. A refusal of the secure storage is reported with its text.
    pub fn entry(&self) -> (r: Result<KeyringEntry, ProviderSettingsError>)
        ensures
            r matches Ok(e) ==> e.service() == self.service_name() && e.user() == self.user_name(),
            r matches Err(e) ==> e is SecureStorage,
    {
        match keyring_entry(self.service.as_str(), self.user.as_str()) {
            Ok(e) => Ok(e),
            Err(m) => Err(ProviderSettingsError::SecureStorage(m)),
        }
    }
}

/// Where the data key that seals profile API keys comes from.
pub trait DataKeyStore {
    fn load_or_create_key(&self) -> Result<[u8; 32], ProviderSettingsError>;
}

impl DataKeyStore for KeyringDataKeyStore {
    /// The data key held in this store's keyring entry (see `entry`); where
    /// the entry holds none, a fresh random key, stored in the entry first.
    /// What the keyring answers is judged by `stored_key` and `created_key`.
    /// What the entry holds depends on the machine and is not stated; every
    /// failure is one of the secure storage.
    fn load_or_create_key(&self) -> (r: Result<[u8; 32], ProviderSettingsError>)
        ensures
            r matches Err(e) ==> e is SecureStorage,
    {
        let entry = match self.entry() {
            Ok(e) => e,
            Err(e) => {
                return Err(e);
            },
        };
        match stored_key(keyring_get_secret(&entry)) {
            Ok(Some(key)) => Ok(key),
            Ok(None) => {
                let key = match random_bytes(32) {
                    Some(bytes) => match slice_to_key(bytes.as_slice()) {
                        Ok(k) => k,
                        Err(e) => {
                            return Err(e);
                        },
                    },
                    None => {
                        return Err(
                            ProviderSettingsError::SecureStorage(
                                owned("the system's random source is unavailable"),
                            ),
                        );
                    },
                };
                created_key(key, keyring_set_secret(&entry, &key))
            },
            Err(e) => Err(e),
        }
    }
}

/// Seals and opens profile API keys under the data key of a key store.
pub struct AesGcmSecretBox<S: DataKeyStore> {
    data_key_store: S,
}

impl<S: DataKeyStore> AesGcmSecretBox<S> {
    /// The key store the box takes its data key from.
    pub closed spec fn key_store(&self) -> S {
        self.data_key_store
    }

    /// A box over `data_key_store`.
    pub fn new(data_key_store: S) -> (r: AesGcmSecretBox<S>)
        ensures
            r.key_store() == data_key_store,
    {
        AesGcmSecretBox { data_key_store }
    }

    /// Seals a secret under the store's data key with a fresh nonce. A
    /// failure of the key store is passed on.
    pub fn encrypt(&self, plaintext: &str) -> (r: Result<EncryptedSecret, ProviderSettingsError>)
        ensures
            r matches Ok(e) ==> exists|k: Seq<u8>| k.len() == 32 && #[trigger] seals(k, e, plaintext@),
    {
        let key = match self.data_key_store.load_or_create_key() {
            Ok(k) => k,
            Err(e) => {
                return Err(e);
            },
        };
        seal_secret(&key, plaintext)
    }

    /// Opens a sealed secret under the store's data key; the nonce must be
    /// 12 bytes long. A failure of the key store is passed on.
    pub fn decrypt(&self, encrypted: &EncryptedSecret) -> (r: Result<String, ProviderSettingsError>)
        requires
            encrypted.nonce@.len() == 12,
        ensures
            r matches Ok(s) ==> exists|k: Seq<u8>, p: Seq<u8>|
                #![trigger aes256gcm_open(k, encrypted.nonce@, encrypted.ciphertext@), decode_utf8(p)]
                k.len() == 32 && aes256gcm_open(k, encrypted.nonce@, encrypted.ciphertext@) == Some(p)
                    && valid_utf8(p) && s@ == decode_utf8(p),
    {
        let key = match self.data_key_store.load_or_create_key() {
            Ok(k) => k,
            Err(e) => {
                return Err(e);
            },
        };
        open_secret(&key, encrypted)
    }
}

} // verus!
