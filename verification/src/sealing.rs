//! Key generation and authenticated encryption.
//!
//! The key is a fresh 32-character alphanumeric string whose bytes are used
//! directly as XChaCha20Poly1305 key material. Sealing produces one blob that
//! carries the nonce, the ciphertext and the authentication tag; opening that
//! blob under the same key gives the plaintext back.

use vstd::prelude::*;
use vstd::utf8::{encode_utf8, is_ascii_chars, is_ascii_chars_encode_utf8};

verus! {

/// The error the cipher reports: key construction or sealing failed.
#[verifier::external_type_specification]
#[verifier::external_body]
pub struct ExUnknownCryptoError(orion::errors::UnknownCryptoError);

/// The classified failure of secret creation. Encryption is the only step
/// that can fail; every other anomaly is absorbed by defaulting.
#[derive(Clone, Copy, Debug)]
pub enum SecretError {
    CryptoError(orion::errors::UnknownCryptoError),
}

/// Number of bytes the sealed blob carries beyond the plaintext: a 24-byte
/// nonce and a 16-byte authentication tag.
pub const SEAL_OVERHEAD: usize = 40;

/// Longest plaintext the cipher accepts, in bytes.
pub const MAX_PLAINTEXT_LEN: u64 = 274877906880;

/// What opening a sealed blob under a key yields: the plaintext, or nothing
/// when the blob does not authenticate under that key. Decryption is a pure
/// function of key bytes and blob, so its result carries a name.
pub uninterp spec fn opened(key: Seq<u8>, sealed: Seq<u8>) -> Option<Seq<u8>>;

/// A character the generated key may hold: an ASCII letter or digit.
pub open spec fn is_key_char(c: char) -> bool {
    ('0' <= c <= '9') || ('A' <= c <= 'Z') || ('a' <= c <= 'z')
}

/// A well-formed key: 32 alphanumeric characters.
pub open spec fn is_valid_key(key: Seq<char>) -> bool {
    key.len() == 32 && (forall|i: int| 0 <= i < key.len() ==> is_key_char(#[trigger] key[i]))
}

/// Relies on `rand::distributions::Alphanumeric` and `DistString::sample_string`
/// over `rand::thread_rng`: 32 characters drawn uniformly from the ASCII
/// letters and digits, from a cryptographically secure source.
#[verifier::external_body]
pub(crate) fn generate_key() -> (r: String)
    ensures
        is_valid_key(r@),
{
    rand::distributions::DistString::sample_string(
        &rand::distributions::Alphanumeric,
        &mut rand::thread_rng(),
        32,
    )
}

/// A valid key is ASCII, so its UTF-8 encoding is one byte per character.
pub proof fn lemma_key_bytes(key: Seq<char>)
    requires
        is_valid_key(key),
    ensures
        is_ascii_chars(key),
        encode_utf8(key).len() == 32,
{
    assert(is_ascii_chars(key));
    is_ascii_chars_encode_utf8(key);
}

/// Relies on `orion::aead::seal` (XChaCha20Poly1305) and
/// `orion::aead::SecretKey::from_slice`: with a 32-byte key, sealing succeeds
/// exactly when the plaintext is non-empty and no longer than the cipher's
/// limit; the blob is the plaintext length plus nonce and tag; and opening
/// the blob under the same key gives the plaintext back.
#[verifier::external_body]
fn seal_with_key(key: &[u8], plaintext: &[u8]) -> (r: Result<
    Vec<u8>,
    orion::errors::UnknownCryptoError,
>)
    requires
        key@.len() == 32,
    ensures
        r matches Ok(c) ==> c@.len() == plaintext@.len() + SEAL_OVERHEAD,
        r matches Ok(c) ==> opened(key@, c@) == Some(plaintext@),
        r is Ok <==> 1 <= plaintext@.len() <= MAX_PLAINTEXT_LEN,
{
    let secret_key = orion::aead::SecretKey::from_slice(key)?;
    orion::aead::seal(&secret_key, plaintext)
}

/// Relies on `orion::aead::open` (XChaCha20Poly1305) and
/// `orion::aead::SecretKey::from_slice`: opening is deterministic in the key
/// bytes and the blob, succeeds exactly when the blob authenticates under the
/// key, and a blob of at most nonce-plus-tag length never does.
#[verifier::external_body]
fn open_with_key(key: &[u8], sealed: &[u8]) -> (r: Result<
    Vec<u8>,
    orion::errors::UnknownCryptoError,
>)
    ensures
        r matches Ok(p) ==> opened(key@, sealed@) == Some(p@),
        r is Err ==> opened(key@, sealed@) is None,
        sealed@.len() <= SEAL_OVERHEAD ==> r is Err,
{
    let secret_key = orion::aead::SecretKey::from_slice(key)?;
    orion::aead::open(&secret_key, sealed)
}

/// Seal the payload under the given key.
pub fn seal_value(key: &str, plaintext: &[u8]) -> (r: Result<Vec<u8>, SecretError>)
    requires
        is_valid_key(key@),
    ensures
        r matches Ok(c) ==> c@.len() == plaintext@.len() + SEAL_OVERHEAD,
        r matches Ok(c) ==> opened(encode_utf8(key@), c@) == Some(plaintext@),
        r is Ok <==> 1 <= plaintext@.len() <= MAX_PLAINTEXT_LEN,
        r matches Err(e) ==> e is CryptoError,
{
    proof {
        lemma_key_bytes(key@);
    }
    let key_bytes = key.as_bytes();
    match seal_with_key(key_bytes, plaintext) {
        Ok(c) => Ok(c),
        Err(e) => Err(SecretError::CryptoError(e)),
    }
}

/// Open a sealed blob under the given key: the inverse of `seal_value` on
/// everything it produces.
pub fn open_value(key: &str, sealed: &[u8]) -> (r: Result<Vec<u8>, SecretError>)
    requires
        is_valid_key(key@),
    ensures
        r matches Ok(p) ==> opened(encode_utf8(key@), sealed@) == Some(p@),
        r is Err ==> opened(encode_utf8(key@), sealed@) is None,
        r matches Err(e) ==> e is CryptoError,
{
    proof {
        lemma_key_bytes(key@);
    }
    let key_bytes = key.as_bytes();
    match open_with_key(key_bytes, sealed) {
        Ok(p) => Ok(p),
        Err(e) => Err(SecretError::CryptoError(e)),
    }
}

/// Law: a round trip returns the payload. Whenever sealing a payload under a
/// key yields a blob, opening that blob under the same key yields exactly the
/// payload, in terms of the contracts of `seal_value` and `open_value`.
pub proof fn lemma_seal_open_round_trip(
    key: Seq<u8>,
    payload: Seq<u8>,
    sealed: Seq<u8>,
    reopened: Seq<u8>,
)
    requires
        opened(key, sealed) == Some(payload),
        opened(key, sealed) == Some(reopened),
    ensures
        reopened == payload,
{
}

} // verus!
