//! Sealing a secret with AES-256-GCM into a versioned envelope of base64
//! text, and opening it again.
use vstd::prelude::*;

use crate::primitives::{
    aes256gcm_open, aes256gcm_seal, aes_gcm_decrypt, aes_gcm_encrypt, b64_decode, b64_encode,
    b64_url_decode, b64_url_encode, hkdf_sha256_32, hkdf_sha256_okm, random_bytes, utf8_string,
    AES_GCM_MAX_PLAINTEXT,
};
use crate::text::{owned, push_decimal, push_str, str_eq, trim, trim_str};
use vstd::string::StringSliceAdditionalSpecFns;
use vstd::utf8::{decode_utf8, encode_utf8, valid_utf8};

verus! {

/// The nonce length of the envelopes, in bytes.
pub const NONCE_BYTES: usize = 12;

/// A sealed secret: the format version, the algorithm, and the nonce and
/// ciphertext as URL-safe unpadded base64.
#[derive(Debug, Clone, PartialEq, Eq)]
pub struct CipherEnvelope {
    pub v: u8,
    pub algo: String,
    pub nonce_b64: String,
    pub ciphertext_b64: String,
}

/// Why a secret could not be sealed or opened.
#[derive(Debug, PartialEq, Eq)]
pub enum CryptoError {
    InvalidVersion(u8),
    UnsupportedAlgorithm(String),
    NonceDecode(String),
    CipherDecode(String),
    InvalidNonceLength { expected: usize, actual: usize },
    CipherOperation,
    InvalidUtf8,
    KeyDerivation,
    RandomUnavailable,
}

impl CryptoError {
    /// The text of this error.
    pub fn to_string(&self) -> (r: String)
        ensures
            r@ == crypto_error_text(*self),
    {
        let mut out = String::new();
        match self {
            CryptoError::InvalidVersion(v) => {
                push_str(&mut out, "invalid cipher envelope version: ");
                push_decimal(&mut out, *v as u64);
            },
            CryptoError::UnsupportedAlgorithm(a) => {
                push_str(&mut out, "unsupported algorithm: ");
                push_str(&mut out, a.as_str());
            },
            CryptoError::NonceDecode(e) => {
                push_str(&mut out, "failed to decode nonce: ");
                push_str(&mut out, e.as_str());
            },
            CryptoError::CipherDecode(e) => {
                push_str(&mut out, "failed to decode ciphertext: ");
                push_str(&mut out, e.as_str());
            },
            CryptoError::InvalidNonceLength { expected, actual } => {
                push_str(&mut out, "invalid nonce length: expected ");
                push_decimal(&mut out, *expected as u64);
                push_str(&mut out, ", got ");
                push_decimal(&mut out, *actual as u64);
            },
            CryptoError::CipherOperation => {
                push_str(&mut out, "cipher operation failed");
            },
            CryptoError::InvalidUtf8 => {
                push_str(&mut out, "decrypted payload is not valid UTF-8");
            },
            CryptoError::KeyDerivation => {
                push_str(&mut out, "failed to derive encryption key");
            },
            CryptoError::RandomUnavailable => {
                push_str(&mut out, "the system's random source is unavailable");
            },
        }
        out
    }
}

/// The text of a crypto error.
pub open spec fn crypto_error_text(e: CryptoError) -> Seq<char> {
    match e {
        CryptoError::InvalidVersion(v) => "invalid cipher envelope version: "@ + crate::text::decimal(
            v as nat,
        ),
        CryptoError::UnsupportedAlgorithm(a) => "unsupported algorithm: "@ + a@,
        CryptoError::NonceDecode(m) => "failed to decode nonce: "@ + m@,
        CryptoError::CipherDecode(m) => "failed to decode ciphertext: "@ + m@,
        CryptoError::InvalidNonceLength { expected, actual } => "invalid nonce length: expected "@
            + crate::text::decimal(expected as nat) + ", got "@ + crate::text::decimal(actual as nat),
        CryptoError::CipherOperation => "cipher operation failed"@,
        CryptoError::InvalidUtf8 => "decrypted payload is not valid UTF-8"@,
        CryptoError::KeyDerivation => "failed to derive encryption key"@,
        CryptoError::RandomUnavailable => "the system's random source is unavailable"@,
    }
}

/// The salt of the key derivation.
pub open spec fn app_salt() -> Seq<u8> {
    encode_utf8("argusx.desktop.runtime-config.v1"@)
}

/// The context the derived key is bound to.
pub open spec fn encryption_context() -> Seq<u8> {
    encode_utf8("llm-runtime-config"@)
}

/// The key derived from a host fingerprint: HKDF-SHA256 over the trimmed
/// fingerprint's bytes, with the application's salt and context.
pub open spec fn fingerprint_key(fingerprint: Seq<char>) -> Seq<u8> {
    hkdf_sha256_okm(app_salt(), encode_utf8(trim(fingerprint)), encryption_context())
}

/// The key derived from a host fingerprint. Surrounding whitespace of the
/// fingerprint does not change the key, and one fingerprint always gives
/// one key.
pub fn derive_key_from_fingerprint(fingerprint: &str) -> (r: Result<[u8; 32], CryptoError>)
    ensures
        r matches Ok(k) && k@ == fingerprint_key(fingerprint@),
{
    let trimmed = trim_str(fingerprint);
    let salt = "argusx.desktop.runtime-config.v1";
    let context = "llm-runtime-config";
    match hkdf_sha256_32(salt.as_bytes(), trimmed.as_str().as_bytes(), context.as_bytes()) {
        Some(key) => Ok(key),
        None => Err(CryptoError::KeyDerivation),
    }
}

/// Whether `e` seals `plaintext` under `key`: version 1, AES-256-GCM, and
/// the base64 of a 12-byte nonce and of the plaintext's UTF-8 bytes sealed
/// with it.
pub open spec fn is_sealed(key: Seq<u8>, e: CipherEnvelope, plaintext: Seq<char>) -> bool {
    &&& e.v == 1
    &&& e.algo@ == "aes-256-gcm"@
    &&& encode_utf8(plaintext).len() <= AES_GCM_MAX_PLAINTEXT
    &&& exists|n: Seq<u8>|
        #![trigger b64_url_encode(n)]
        n.len() == 12 && e.nonce_b64@ == b64_url_encode(n) && e.ciphertext_b64@ == b64_url_encode(
            aes256gcm_seal(key, n, encode_utf8(plaintext)),
        )
}

/// Seals a secret under `key` with the 12-byte `nonce`: version 1,
/// AES-256-GCM, and the base64 of the nonce and of the plaintext's UTF-8 bytes
/// sealed with it. A plaintext too long for the cipher is refused as a cipher
/// failure.
pub fn seal_with_nonce(key: &[u8; 32], nonce: &[u8], plaintext: &str) -> (r: Result<CipherEnvelope, CryptoError>)
    requires
        nonce@.len() == 12,
    ensures
        (r is Ok) == (encode_utf8(plaintext@).len() <= AES_GCM_MAX_PLAINTEXT),
        r matches Ok(e) ==> {
            &&& e.v == 1
            &&& e.algo@ == "aes-256-gcm"@
            &&& e.nonce_b64@ == b64_url_encode(nonce@)
            &&& e.ciphertext_b64@ == b64_url_encode(aes256gcm_seal(key@, nonce@, encode_utf8(plaintext@)))
        },
        r matches Ok(e) ==> is_sealed(key@, e, plaintext@),
        r matches Err(e) ==> e == CryptoError::CipherOperation,
{
    let bytes = plaintext.as_bytes();
    let ciphertext = match aes_gcm_encrypt(key, nonce, bytes) {
        Ok(c) => c,
        Err(_) => {
            return Err(CryptoError::CipherOperation);
        },
    };
    let nonce_b64 = b64_encode(nonce);
    let ciphertext_b64 = b64_encode(ciphertext.as_slice());
    let e = CipherEnvelope { v: 1, algo: owned("aes-256-gcm"), nonce_b64, ciphertext_b64 };
    proof {
        e_sealed_witness(key@, e, plaintext@, nonce@);
    }
    Ok(e)
}

/// Seals a secret under `key` with a fresh random nonce (see
/// `seal_with_nonce`); a failure of the random source is reported as such.
pub fn encrypt_secret(key: &[u8; 32], plaintext: &str) -> (r: Result<CipherEnvelope, CryptoError>)
    ensures
        r matches Ok(e) ==> is_sealed(key@, e, plaintext@),
        r matches Err(e) ==> e == CryptoError::CipherOperation || e == CryptoError::RandomUnavailable,
        r == Err::<CipherEnvelope, CryptoError>(CryptoError::CipherOperation) ==> encode_utf8(plaintext@).len()
            > AES_GCM_MAX_PLAINTEXT,
        encode_utf8(plaintext@).len() > AES_GCM_MAX_PLAINTEXT ==> r is Err,
{
    match random_bytes(12) {
        Some(nonce) => seal_with_nonce(key, nonce.as_slice(), plaintext),
        None => Err(CryptoError::RandomUnavailable),
    }
}

proof fn e_sealed_witness(key: Seq<u8>, e: CipherEnvelope, plaintext: Seq<char>, n: Seq<u8>)
    requires
        e.v == 1,
        e.algo@ == "aes-256-gcm"@,
        encode_utf8(plaintext).len() <= AES_GCM_MAX_PLAINTEXT,
        n.len() == 12,
        e.nonce_b64@ == b64_url_encode(n),
        e.ciphertext_b64@ == b64_url_encode(aes256gcm_seal(key, n, encode_utf8(plaintext))),
    ensures
        is_sealed(key, e, plaintext),
{
}

/// Whether the header of `e` is the one this library writes.
pub open spec fn header_accepted(e: CipherEnvelope) -> bool {
    e.v == 1 && e.algo@ == "aes-256-gcm"@
}

/// Whether `r` is the outcome of opening `e` under `key`: each check in
/// turn (version, algorithm, nonce text, nonce length, ciphertext text, tag,
/// UTF-8) refuses with its own error, else the secret's text comes back.
pub open spec fn is_opening(key: Seq<u8>, e: CipherEnvelope, r: Result<String, CryptoError>) -> bool {
    let nb = b64_url_decode(e.nonce_b64@);
    let cb = b64_url_decode(e.ciphertext_b64@);
    if e.v != 1 {
        r == Err::<String, CryptoError>(CryptoError::InvalidVersion(e.v))
    } else if e.algo@ != "aes-256-gcm"@ {
        r matches Err(CryptoError::UnsupportedAlgorithm(a)) && a@ == e.algo@
    } else if nb is Err {
        r matches Err(CryptoError::NonceDecode(m)) && m@ == nb->Err_0
    } else if nb->Ok_0.len() != 12 {
        r matches Err(CryptoError::InvalidNonceLength { expected, actual }) && expected == 12
            && actual == nb->Ok_0.len()
    } else if cb is Err {
        r matches Err(CryptoError::CipherDecode(m)) && m@ == cb->Err_0
    } else if aes256gcm_open(key, nb->Ok_0, cb->Ok_0) is None {
        r == Err::<String, CryptoError>(CryptoError::CipherOperation)
    } else if !valid_utf8(aes256gcm_open(key, nb->Ok_0, cb->Ok_0)->0) {
        r == Err::<String, CryptoError>(CryptoError::InvalidUtf8)
    } else {
        r matches Ok(s) && s@ == decode_utf8(aes256gcm_open(key, nb->Ok_0, cb->Ok_0)->0)
    }
}

/// Opens an envelope under `key`. An envelope that sealed a secret under the
/// same key opens to that secret.
pub fn decrypt_secret(key: &[u8; 32], envelope: &CipherEnvelope) -> (r: Result<String, CryptoError>)
    ensures
        is_opening(key@, *envelope, r),
        forall|plaintext: Seq<char>|
            #[trigger] is_sealed(key@, *envelope, plaintext) ==> (r matches Ok(s) && s@ == plaintext),
{
    if envelope.v != 1 {
        return Err(CryptoError::InvalidVersion(envelope.v));
    }
    if !str_eq(envelope.algo.as_str(), "aes-256-gcm") {
        return Err(CryptoError::UnsupportedAlgorithm(envelope.algo.clone()));
    }
    let nonce = match b64_decode(envelope.nonce_b64.as_str()) {
        Ok(n) => n,
        Err(e) => {
            return Err(CryptoError::NonceDecode(e));
        },
    };
    if nonce.len() != NONCE_BYTES {
        return Err(CryptoError::InvalidNonceLength { expected: NONCE_BYTES, actual: nonce.len() });
    }
    let ciphertext = match b64_decode(envelope.ciphertext_b64.as_str()) {
        Ok(c) => c,
        Err(e) => {
            return Err(CryptoError::CipherDecode(e));
        },
    };
    let plain = match aes_gcm_decrypt(key, nonce.as_slice(), ciphertext.as_slice()) {
        Ok(p) => p,
        Err(_) => {
            return Err(CryptoError::CipherOperation);
        },
    };
    let ghost plain_bytes = plain@;
    match utf8_string(plain) {
        Ok(text) => {
            proof {
                assert forall|plaintext: Seq<char>| #[trigger]
                    is_sealed(key@, *envelope, plaintext) implies text@ == plaintext by {
                    vstd::utf8::encode_utf8_decode_utf8(plaintext);
                }
            }
            Ok(text)
        },
        Err(_) => {
            proof {
                assert forall|plaintext: Seq<char>| #[trigger]
                    is_sealed(key@, *envelope, plaintext) implies false by {
                    vstd::utf8::encode_utf8_valid_utf8(plaintext);
                }
            }
            Err(CryptoError::InvalidUtf8)
        },
    }
}

/// Fingerprints that differ only in surrounding whitespace derive one key.
pub proof fn lemma_key_ignores_surrounding_whitespace(f1: Seq<char>, f2: Seq<char>)
    requires
        trim(f1) == trim(f2),
    ensures
        fingerprint_key(f1) == fingerprint_key(f2),
{
}

} // verus!
