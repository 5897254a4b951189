//! The fingerprint of a host, from its machine address and host name.
use vstd::prelude::*;

use crate::primitives::{sha256, sha256_of};
use crate::text::{ascii_lower_seq, owned, push_char, push_str, replace_char, replace_chars, to_ascii_lowercase, trim,
    trim_str};
use vstd::string::StringSliceAdditionalSpecFns;
use vstd::utf8::{encode_scalar, encode_utf8};

verus! {

/// Why the host's fingerprint could not be read.
#[derive(Debug, PartialEq, Eq)]
pub enum HostFingerprintError {
    MacLookup(String),
    NoMacAddress,
    HostnameLookup(String),
    HostnameUtf8,
}

/// The text of a fingerprint error.
pub open spec fn host_fingerprint_error_text(e: HostFingerprintError) -> Seq<char> {
    match e {
        HostFingerprintError::MacLookup(m) => "failed to inspect local machine address: "@ + m@,
        HostFingerprintError::NoMacAddress => "no machine address available on this host"@,
        HostFingerprintError::HostnameLookup(m) => "failed to read hostname: "@ + m@,
        HostFingerprintError::HostnameUtf8 => "hostname is not valid UTF-8"@,
    }
}

impl HostFingerprintError {
    /// The text of this error.
    pub fn to_string(&self) -> (r: String)
        ensures
            r@ == host_fingerprint_error_text(*self),
    {
        match self {
            HostFingerprintError::MacLookup(m) => {
                let mut out = owned("failed to inspect local machine address: ");
                push_str(&mut out, m.as_str());
                out
            },
            HostFingerprintError::NoMacAddress => owned("no machine address available on this host"),
            HostFingerprintError::HostnameLookup(m) => {
                let mut out = owned("failed to read hostname: ");
                push_str(&mut out, m.as_str());
                out
            },
            HostFingerprintError::HostnameUtf8 => owned("hostname is not valid UTF-8"),
        }
    }
}

/// A machine address as fingerprinted: trimmed, lower case, with `:` for `-`.
pub open spec fn normalized_address(a: Seq<char>) -> Seq<char> {
    replace_char(ascii_lower_seq(trim(a)), '-', ':')
}

/// A host name as fingerprinted: trimmed and lower case.
pub open spec fn normalized_host(h: Seq<char>) -> Seq<char> {
    ascii_lower_seq(trim(h))
}

/// The lower-case hexadecimal digit for `d < 16`.
pub open spec fn hex_digit(d: nat) -> char {
    if d < 10 {
        ((d + 48) as u32) as char
    } else {
        ((d + 87) as u32) as char
    }
}

/// The lower-case hexadecimal text of `bytes`, two digits a byte.
pub open spec fn hex_of(bytes: Seq<u8>) -> Seq<char>
    decreases bytes.len(),
{
    if bytes.len() == 0 {
        Seq::empty()
    } else {
        hex_of(bytes.drop_last()) + seq![
            hex_digit((bytes.last() / 16) as nat),
            hex_digit((bytes.last() % 16) as nat),
        ]
    }
}

/// The fingerprint of a host: the hexadecimal SHA-256 digest of its
/// normalized machine address, a `|`, and its normalized host name.
pub open spec fn fingerprint_of(machine_address: Seq<char>, hostname: Seq<char>) -> Seq<char> {
    hex_of(
        sha256_of(
            encode_utf8(normalized_address(machine_address)) + seq![124u8] + encode_utf8(
                normalized_host(hostname),
            ),
        ),
    )
}

fn hex_char(d: u8) -> (c: char)
    requires
        d < 16,
    ensures
        c == hex_digit(d as nat),
{
    if d < 10 {
        (d + 48) as char
    } else {
        (d + 87) as char
    }
}

/// Appends the bytes of `b` to `v`.
fn append_bytes(v: &mut Vec<u8>, b: &[u8])
    ensures
        final(v)@ == old(v)@ + b@,
{
    let ghost start = v@;
    let mut i: usize = 0;
    while i < b.len()
        invariant
            i <= b@.len(),
            v@ == start + b@.subrange(0, i as int),
        decreases b@.len() - i,
    {
        v.push(b[i]);
        i = i + 1;
        assert(v@ =~= start + b@.subrange(0, i as int));
    }
    assert(b@.subrange(0, b@.len() as int) =~= b@);
}

/// The fingerprint of a host. Equal inputs, up to surrounding whitespace,
/// case and the separator of the address, give equal fingerprints.
pub fn derive_fingerprint(machine_address: &str, hostname: &str) -> (r: String)
    ensures
        r@ == fingerprint_of(machine_address@, hostname@),
{
    let trimmed_address = trim_str(machine_address);
    let lower_address = to_ascii_lowercase(trimmed_address.as_str());
    let address = replace_chars(lower_address.as_str(), '-', ':');
    let trimmed_host = trim_str(hostname);
    let host = to_ascii_lowercase(trimmed_host.as_str());
    let mut data: Vec<u8> = Vec::new();
    append_bytes(&mut data, address.as_str().as_bytes());
    data.push(124u8);
    append_bytes(&mut data, host.as_str().as_bytes());
    assert(data@ =~= encode_utf8(normalized_address(machine_address@)) + seq![124u8] + encode_utf8(
        normalized_host(hostname@),
    ));
    let digest = sha256(data.as_slice());
    let mut hex = String::new();
    let mut i: usize = 0;
    assert(digest@.subrange(0, 0) =~= Seq::<u8>::empty());
    while i < 32
        invariant
            i <= 32,
            digest@.len() == 32,
            hex@ == hex_of(digest@.subrange(0, i as int)),
        decreases 32 - i,
    {
        let byte = digest[i];
        push_char(&mut hex, hex_char(byte / 16));
        push_char(&mut hex, hex_char(byte % 16));
        assert(digest@.subrange(0, i + 1).drop_last() =~= digest@.subrange(0, i as int));
        assert(hex@ =~= hex_of(digest@.subrange(0, i + 1)));
        i = i + 1;
    }
    assert(digest@.subrange(0, 32) =~= digest@);
    hex
}

/// Two hosts whose addresses and names agree once normalized (surrounding
/// whitespace, case, `-` or `:` between the address's parts) have one
/// fingerprint.
pub proof fn lemma_fingerprint_ignores_notation(a1: Seq<char>, h1: Seq<char>, a2: Seq<char>, h2: Seq<char>)
    requires
        normalized_address(a1) == normalized_address(a2),
        normalized_host(h1) == normalized_host(h2),
    ensures
        fingerprint_of(a1, h1) == fingerprint_of(a2, h2),
{
}

/// A normalized host name is the trimmed name with its ASCII capitals made
/// small: it holds no ASCII capital, and each of its characters is the
/// trimmed name's character or, for an ASCII capital, its small letter.
pub proof fn lemma_normalized_host_is_lower_case(hostname: Seq<char>)
    ensures
        normalized_host(hostname).len() == trim(hostname).len(),
        forall|i: int|
            0 <= i < normalized_host(hostname).len() ==> !('A' <= #[trigger] normalized_host(hostname)[i]
                <= 'Z'),
        forall|i: int|
            0 <= i < normalized_host(hostname).len() ==> (#[trigger] normalized_host(hostname)[i] == trim(
                hostname,
            )[i] || ('A' <= trim(hostname)[i] <= 'Z' && normalized_host(hostname)[i] as u32 == trim(
                hostname,
            )[i] as u32 + 32)),
{
}

/// A normalized machine address is the trimmed address, small letters for
/// ASCII capitals and `:` for `-`: it holds no ASCII capital and no `-`, and
/// it is as long as the trimmed address.
pub proof fn lemma_normalized_address_shape(machine_address: Seq<char>)
    ensures
        normalized_address(machine_address).len() == trim(machine_address).len(),
        forall|i: int|
            0 <= i < normalized_address(machine_address).len() ==> !('A' <= #[trigger] normalized_address(
                machine_address,
            )[i] <= 'Z') && normalized_address(machine_address)[i] != '-',
        forall|i: int|
            0 <= i < normalized_address(machine_address).len() && trim(machine_address)[i] == '-'
                ==> #[trigger] normalized_address(machine_address)[i] == ':',
{
}

/// The hexadecimal text of bytes has two characters a byte, each a digit
/// or a small letter from `a` to `f`; the high half of each byte comes first.
pub proof fn lemma_hex_of_shape(bytes: Seq<u8>)
    ensures
        hex_of(bytes).len() == 2 * bytes.len(),
        forall|i: int|
            0 <= i < hex_of(bytes).len() ==> ('0' <= #[trigger] hex_of(bytes)[i] <= '9') || ('a' <= hex_of(
                bytes,
            )[i] <= 'f'),
        forall|k: int|
            0 <= k < bytes.len() ==> hex_of(bytes)[2 * k] == hex_digit((#[trigger] bytes[k] / 16) as nat)
                && hex_of(bytes)[2 * k + 1] == hex_digit((bytes[k] % 16) as nat),
    decreases bytes.len(),
{
    if bytes.len() > 0 {
        let init = bytes.drop_last();
        lemma_hex_of_shape(init);
        let b = bytes.last();
        assert(hex_digit((b / 16) as nat) == if b / 16 < 10 { ((b / 16 + 48) as u32) as char } else { ((b / 16 + 87) as u32) as char });
        assert forall|k: int| 0 <= k < bytes.len() implies hex_of(bytes)[2 * k] == hex_digit(
            (#[trigger] bytes[k] / 16) as nat,
        ) && hex_of(bytes)[2 * k + 1] == hex_digit((bytes[k] % 16) as nat) by {
            if k < init.len() {
                assert(bytes[k] == init[k]);
                assert(hex_of(bytes)[2 * k] == hex_of(init)[2 * k]);
                assert(hex_of(bytes)[2 * k + 1] == hex_of(init)[2 * k + 1]);
            }
        }
        assert forall|i: int| 0 <= i < hex_of(bytes).len() implies ('0' <= #[trigger] hex_of(bytes)[i] <= '9')
            || ('a' <= hex_of(bytes)[i] <= 'f') by {
            if i < hex_of(init).len() {
                assert(hex_of(bytes)[i] == hex_of(init)[i]);
            }
        }
    }
}

proof fn lemma_encode_utf8_concat(a: Seq<char>, b: Seq<char>)
    ensures
        encode_utf8(a + b) == encode_utf8(a) + encode_utf8(b),
    decreases a.len(),
{
    if a.len() == 0 {
        assert(a + b =~= b);
        assert(encode_utf8(a) + encode_utf8(b) =~= encode_utf8(b));
    } else {
        lemma_encode_utf8_concat(a.drop_first(), b);
        assert((a + b).drop_first() =~= a.drop_first() + b);
        assert((a + b)[0] == a[0]);
        assert(encode_utf8(a + b) == encode_scalar(a[0] as u32) + encode_utf8(a.drop_first() + b));
        assert(encode_utf8(a) == encode_scalar(a[0] as u32) + encode_utf8(a.drop_first()));
        assert(encode_scalar(a[0] as u32) + (encode_utf8(a.drop_first()) + encode_utf8(b)) =~= (
        encode_scalar(a[0] as u32) + encode_utf8(a.drop_first())) + encode_utf8(b));
    }
}

/// A host's fingerprint is the lower-case hexadecimal SHA-256 digest of the
/// UTF-8 text made of its normalized machine address, a `|`, and its
/// normalized host name: the host name is part of what is digested.
pub proof fn lemma_fingerprint_digests_address_and_host(machine_address: Seq<char>, hostname: Seq<char>)
    ensures
        fingerprint_of(machine_address, hostname) == hex_of(
            sha256_of(
                encode_utf8(normalized_address(machine_address) + "|"@ + normalized_host(hostname)),
            ),
        ),
{
    let a = normalized_address(machine_address);
    let h = normalized_host(hostname);
    reveal_strlit("|");
    assert(('|' as u32) == 124u32);
    assert((124u32 & 0x7F) == 124u32) by (bit_vector);
    assert(encode_utf8(seq!['|']) =~= seq![124u8]) by {
        assert(encode_utf8(seq!['|']) == encode_scalar('|' as u32) + encode_utf8(
            seq!['|'].drop_first(),
        ));
        assert(seq!['|'].drop_first() =~= Seq::<char>::empty());
    }
    assert("|"@ =~= seq!['|']);
    lemma_encode_utf8_concat(a, "|"@);
    lemma_encode_utf8_concat(a + "|"@, h);
    assert(encode_utf8(a + "|"@ + h) =~= encode_utf8(a) + seq![124u8] + encode_utf8(h));
}

/// The digest inputs of two hosts with the same machine address and
/// different normalized host names differ.
pub proof fn lemma_fingerprint_input_depends_on_host(
    machine_address: Seq<char>,
    hostname1: Seq<char>,
    hostname2: Seq<char>,
)
    requires
        normalized_host(hostname1) != normalized_host(hostname2),
    ensures
        encode_utf8(normalized_address(machine_address) + "|"@ + normalized_host(hostname1))
            != encode_utf8(normalized_address(machine_address) + "|"@ + normalized_host(hostname2)),
{
    let x1 = normalized_address(machine_address) + "|"@ + normalized_host(hostname1);
    let x2 = normalized_address(machine_address) + "|"@ + normalized_host(hostname2);
    vstd::utf8::encode_utf8_decode_utf8(x1);
    vstd::utf8::encode_utf8_decode_utf8(x2);
    if x1 == x2 {
        let n = (normalized_address(machine_address) + "|"@).len();
        assert(x1.subrange(n as int, x1.len() as int) =~= normalized_host(hostname1));
        assert(x2.subrange(n as int, x2.len() as int) =~= normalized_host(hostname2));
    }
}

} // verus!
