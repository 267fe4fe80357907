//! The secret record and its creation: one atomic transformation from raw
//! bytes, policy inputs and headers to a fully formed record, the fresh
//! symmetric key, and the ciphertext.

use vstd::prelude::*;
use vstd::utf8::encode_utf8;
use crate::content::{classify_content, content_type_of};
use crate::headers::{captured_header, capture_header, RequestHeaders};
use crate::password::{hash_password, pwd_commitment};
use crate::policy::{expires_at, normalize_reads, normalize_seconds, reads_of, seconds_of};
use crate::policy::now_millis;
use crate::sealing::{is_valid_key, opened, seal_value, SecretError, SEAL_OVERHEAD,
    MAX_PLAINTEXT_LEN};
use crate::sealing::generate_key;

verus! {

/// Descriptive, non-sensitive metadata about a secret. `bytes` is the size of
/// the ciphertext, deliberately not the size of the plaintext.
#[derive(Clone, Debug)]
pub struct Meta {
    pub content_type: String,
    pub user_agent: Option<String>,
    pub x_forwarded_for: Option<String>,
    pub bytes: usize,
}

/// The expiration bounds of a secret: a read limit (`-1` for unlimited), a
/// time-to-live in seconds, and the absolute expiry instant in milliseconds
/// since the Unix epoch.
#[derive(Clone, Debug)]
pub struct LifecycleMax {
    pub reads: i64,
    pub seconds: i64,
    pub expires: i64,
}

/// Consumption so far; creation always starts it at zero reads. Only the
/// external retrieval path moves it.
#[derive(Clone, Debug)]
pub struct LifecycleCurrent {
    pub reads: i64,
}

/// Expiration policy and consumption counters.
#[derive(Clone, Debug)]
pub struct Lifecycle {
    pub max: LifecycleMax,
    pub current: LifecycleCurrent,
}

/// Auxiliary facts: the optional password commitment. Present exactly when a
/// password was supplied at creation.
#[derive(Clone, Debug)]
pub struct Facts {
    pub pwd: Option<i64>,
}

/// The canonical record of one secret. Constructed fully formed by
/// [`Secret::create`] and never mutated by this library; the external
/// retrieval path may later flip `active` and count reads.
#[derive(Clone, Debug)]
pub struct Secret {
    pub id: String,
    pub active: bool,
    pub meta: Meta,
    pub lifecycle: Lifecycle,
    pub facts: Facts,
}

/// The creation result: the record, the raw key material, and the ciphertext.
/// The key is handed back beside the record, never inside it, so that caller
/// and storage can part them.
#[derive(Clone, Debug)]
pub struct SecretPlusData {
    pub secret: Secret,
    pub key: String,
    pub value: Vec<u8>,
}

/// Relies on `uuid::Uuid::new_v4` and its `Display` form: a random
/// version-4 UUID rendered as the 36-character hyphenated string.
#[verifier::external_body]
fn new_secret_id() -> (r: String)
    ensures
        r@.len() == 36,
{
    uuid::Uuid::new_v4().to_string()
}

impl Secret {
    /// Create a secret: generate an identifier and a fresh key, classify the
    /// content, seal the payload, normalize the expiration policy, commit the
    /// password if one was given, and capture provenance headers. Fails only
    /// when sealing fails, and then returns nothing partial.
    ///
    /// The bound on `expire_seconds` is a machine limit: it keeps the expiry
    /// instant inside a 64-bit count of milliseconds.
    pub fn create(
        value: &[u8],
        expire_reads: Option<i64>,
        expire_seconds: Option<i64>,
        pwd: Option<&String>,
        headers: RequestHeaders,
    ) -> (r: Result<SecretPlusData, SecretError>)
        requires
            expire_seconds matches Some(v) ==> v >= -9_000_000_000_000_000,
        ensures
            r is Ok <==> 1 <= value@.len() <= MAX_PLAINTEXT_LEN,
            r matches Err(e) ==> e is CryptoError,
            r matches Ok(spd) ==> {
                &&& spd.secret.active == true
                &&& spd.secret.id@.len() == 36
                &&& spd.secret.meta.bytes == spd.value@.len()
                &&& spd.value@.len() == value@.len() + SEAL_OVERHEAD
                &&& spd.secret.meta.content_type@ == content_type_of(
                    value@,
                    headers.content_type.deep_view(),
                )
                &&& spd.secret.meta.user_agent.deep_view() == captured_header(
                    headers.user_agent.deep_view(),
                )
                &&& spd.secret.meta.x_forwarded_for.deep_view() == captured_header(
                    headers.x_forwarded_for.deep_view(),
                )
                &&& spd.secret.lifecycle.max.reads == reads_of(expire_reads, expire_seconds)
                &&& spd.secret.lifecycle.max.seconds == seconds_of(expire_seconds)
                &&& spd.secret.lifecycle.current.reads == 0
                &&& spd.secret.facts.pwd == (match pwd {
                    Some(p) => Some(pwd_commitment(p@)),
                    None => None::<i64>,
                })
                &&& is_valid_key(spd.key@)
                &&& opened(encode_utf8(spd.key@), spd.value@) == Some(value@)
            },
    {
        let id = new_secret_id();

        // Generate random encryption key
        let key = generate_key();

        // Detect binary mime-type, fallback on content-type header
        let content_type = classify_content(value, &headers.content_type);

        // Encrypt data with key
        let ciphertext = match seal_value(key.as_str(), value) {
            Ok(c) => c,
            Err(e) => {
                return Err(e);
            },
        };

        // Payload size is the size of the ciphertext, not of the input
        let bytes = ciphertext.len();

        let reads = normalize_reads(expire_reads, expire_seconds);
        let seconds = normalize_seconds(expire_seconds);

        // Secret expiration is now + expiration seconds
        let now = now_millis();
        let expires = expires_at(now, seconds);

        // Hash password if one was provided
        let pwd_commit = match pwd {
            Some(p) => Some(hash_password(p.as_str())),
            None => None,
        };

        let x_forwarded_for = capture_header(&headers.x_forwarded_for);
        let user_agent = capture_header(&headers.user_agent);

        let secret = Secret {
            id,
            active: true,
            meta: Meta { content_type, user_agent, x_forwarded_for, bytes },
            lifecycle: Lifecycle {
                max: LifecycleMax { reads, seconds, expires },
                current: LifecycleCurrent { reads: 0i64 },
            },
            facts: Facts { pwd: pwd_commit },
        };

        Ok(SecretPlusData { secret, key, value: ciphertext })
    }
}

} // verus!
