//! Key material: secret tokens and their storage-safe digests.

use vstd::prelude::*;
use vstd::string::*;

verus! {

/// Number of random bytes in a secret: 256 bits of entropy.
pub const KEY_BYTES: usize = 32;

/// Number of PBKDF2 rounds applied to a secret before it is stored.
pub const HASH_ROUNDS: u32 = 100_000;

/// The sixteen lowercase hexadecimal digits, indexed by their value.
pub open spec fn hex_digits() -> Seq<char> {
    seq!['0', '1', '2', '3', '4', '5', '6', '7', '8', '9', 'a', 'b', 'c', 'd', 'e', 'f']
}

/// Lowercase hexadecimal rendering of `bytes`: two digits per byte, the high
/// nibble first.
pub open spec fn hex_lower(bytes: Seq<u8>) -> Seq<char> {
    Seq::new(
        2 * bytes.len(),
        |i: int|
            if i % 2 == 0 {
                hex_digits()[bytes[i / 2] as int / 16]
            } else {
                hex_digits()[bytes[i / 2] as int % 16]
            },
    )
}

/// The tag that every secret of this system starts with.
pub open spec fn key_prefix() -> Seq<char> {
    seq!['p', 'a', 'l', 'i', '_']
}

/// The textual secret made from the random bytes `bytes`.
pub open spec fn api_key_text(bytes: Seq<u8>) -> Seq<char> {
    key_prefix() + hex_lower(bytes)
}

/// Whether `text` has the shape of a secret issued by this system.
pub open spec fn is_api_key(text: Seq<char>) -> bool {
    exists|bytes: Seq<u8>| bytes.len() == KEY_BYTES && text == #[trigger] api_key_text(bytes)
}

/// The system-wide salt, as the bytes handed to the key derivation.
pub open spec fn server_salt() -> Seq<u8> {
    "pali_server_salt_2024_secure_todo_api_v1".spec_bytes()
}

/// The 32-byte key that PBKDF2 with HMAC-SHA-256 derives from `password`,
/// `salt` and the number of `rounds`.
pub uninterp spec fn pbkdf2_hmac_sha256(password: Seq<u8>, salt: Seq<u8>, rounds: u32) -> Seq<u8>;

/// The digest under which the secret `key` is stored.
pub open spec fn key_digest(key: Seq<char>) -> Seq<char> {
    hex_lower(pbkdf2_hmac_sha256(vstd::utf8::encode_utf8(key), server_salt(), HASH_ROUNDS))
}

/// `hex::encode`: the lowercase hexadecimal text of `data`, two digits for
/// each byte in order.
#[verifier::external_body]
fn hex_encode(data: &[u8]) -> (text: String)
    ensures
        text@ == hex_lower(data@),
{
    hex::encode(data)
}

/// `pbkdf2::pbkdf2_hmac_array` with SHA-256 and a 32-byte output. The result
/// depends on the three arguments alone; the contract gives it a name and
/// claims nothing else of it.
#[verifier::external_body]
fn derive_key(password: &[u8], salt: &[u8], rounds: u32) -> (derived: [u8; 32])
    ensures
        derived@ == pbkdf2_hmac_sha256(password@, salt@, rounds),
{
    pbkdf2::pbkdf2_hmac_array::<sha2::Sha256, 32>(password, salt, rounds)
}

/// `rand::thread_rng` followed by `Rng::gen` for a 32-byte array. Every
/// outcome is possible, so nothing is claimed of the bytes.
#[verifier::external_body]
fn random_key_bytes() -> (bytes: [u8; 32]) {
    rand::Rng::gen(&mut rand::thread_rng())
}

/// Compares two byte strings in time that depends on their lengths alone:
/// every byte is read, whether or not an earlier one differed.
pub fn constant_time_eq(a: &[u8], b: &[u8]) -> (same: bool)
    ensures
        same == (a@ == b@),
{
    if a.len() != b.len() {
        return false;
    }
    let n = a.len();
    let mut diff: u8 = 0;
    let mut i: usize = 0;
    while i < n
        invariant
            i <= n,
            a@.len() == n,
            b@.len() == n,
            (diff == 0) <==> (forall|j: int| 0 <= j < i ==> a@[j] == b@[j]),
        decreases n - i,
    {
        let x: u8 = a[i];
        let y: u8 = b[i];
        let next: u8 = diff | (x ^ y);
        assert((next == 0) <==> (diff == 0 && x == y)) by (bit_vector)
            requires
                next == diff | (x ^ y),
        ;
        diff = next;
        i = i + 1;
    }
    assert((diff == 0) ==> a@ =~= b@);
    diff == 0
}

/// Whether two texts are the same, decided without an early exit.
pub fn same_text(a: &str, b: &str) -> (same: bool)
    ensures
        same == (a@ == b@),
{
    let same = constant_time_eq(a.as_bytes(), b.as_bytes());
    proof {
        vstd::utf8::encode_utf8_decode_utf8(a@);
        vstd::utf8::encode_utf8_decode_utf8(b@);
    }
    same
}

/// Renders a derived key as the digest that is stored: 64 lowercase
/// hexadecimal digits.
pub fn digest_text(derived: &[u8; 32]) -> (digest: String)
    ensures
        digest@ == hex_lower(derived@),
        digest@.len() == 64,
{
    hex_encode(derived.as_slice())
}

/// Builds the textual secret for the given random bytes.
pub fn format_api_key(bytes: &[u8; 32]) -> (key: String)
    ensures
        key@ == api_key_text(bytes@),
        key@.len() == 69,
        is_api_key(key@),
{
    let digits = hex_encode(bytes.as_slice());
    let prefix = String::from_str("pali_");
    proof {
        reveal_strlit("pali_");
        assert("pali_"@ =~= key_prefix());
    }
    prefix.concat(digits.as_str())
}

/// Generates a fresh secret from 256 random bits.
pub fn generate_api_key() -> (key: String)
    ensures
        is_api_key(key@),
{
    let bytes = random_key_bytes();
    format_api_key(&bytes)
}

/// Derives the digest under which a secret is stored. The derivation is a
/// function of the secret alone, so equal secrets always give equal digests.
pub fn hash_api_key(key: &str) -> (digest: String)
    ensures
        digest@ == key_digest(key@),
        digest@.len() == 64,
{
    let salt = "pali_server_salt_2024_secure_todo_api_v1";
    let derived = derive_key(key.as_bytes(), salt.as_bytes(), HASH_ROUNDS);
    digest_text(&derived)
}

} // verus!
