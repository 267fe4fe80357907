//! Normalization of the expiration policy: read limits, time-to-live, and the
//! absolute expiry instant.

use vstd::prelude::*;

verus! {

/// Longest permitted time-to-live, in seconds: thirty days.
pub const MAX_EXPIRE_SECONDS: i64 = 2592000;

/// Time-to-live used when the caller gives none: one hour.
pub const DEFAULT_EXPIRE_SECONDS: i64 = 3600;

/// Read limit meaning "unlimited reads"; the default when only a
/// time-to-live was given.
pub const UNLIMITED_READS: i64 = -1;

/// The read limit the policy settles on: an explicit request is used
/// unchanged; with no request at all a secret is burnt after one read; with
/// only a time-to-live the reads are unlimited.
pub open spec fn reads_of(expire_reads: Option<i64>, expire_seconds: Option<i64>) -> i64 {
    match expire_reads {
        Some(r) => r,
        None => if expire_seconds is None {
            1
        } else {
            UNLIMITED_READS
        },
    }
}

/// The time-to-live the policy settles on: a request above thirty days is
/// clamped down to thirty days, any other request is used unchanged, and no
/// request at all means one hour.
pub open spec fn seconds_of(expire_seconds: Option<i64>) -> i64 {
    match expire_seconds {
        Some(v) => if v > MAX_EXPIRE_SECONDS {
            MAX_EXPIRE_SECONDS
        } else {
            v
        },
        None => DEFAULT_EXPIRE_SECONDS,
    }
}

pub fn normalize_reads(expire_reads: Option<i64>, expire_seconds: Option<i64>) -> (r: i64)
    ensures
        r == reads_of(expire_reads, expire_seconds),
{
    match expire_reads {
        Some(r) => r,
        None => {
            if expire_seconds.is_none() {
                1
            } else {
                UNLIMITED_READS
            }
        },
    }
}

pub fn normalize_seconds(expire_seconds: Option<i64>) -> (r: i64)
    ensures
        r == seconds_of(expire_seconds),
{
    match expire_seconds {
        Some(v) => {
            if v > MAX_EXPIRE_SECONDS {
                MAX_EXPIRE_SECONDS
            } else {
                v
            }
        },
        None => DEFAULT_EXPIRE_SECONDS,
    }
}

/// The absolute expiry instant: the moment of creation plus the normalized
/// time-to-live, in milliseconds since the Unix epoch. The bounds keep the
/// sum inside `i64`.
pub fn expires_at(now_ms: i64, seconds: i64) -> (r: i64)
    requires
        -9_000_000_000_000_000 <= now_ms <= 9_000_000_000_000_000,
        -9_000_000_000_000_000 <= seconds <= 9_000_000_000_000_000,
    ensures
        r == now_ms + seconds * 1000,
{
    now_ms + seconds * 1000
}

/// Relies on `chrono::Utc::now` and `DateTime::timestamp_millis`: the current
/// time as milliseconds since the Unix epoch. Every `chrono` datetime lies
/// between the years -262144 and 262143, so the value fits well inside the
/// stated bounds.
#[verifier::external_body]
pub(crate) fn now_millis() -> (r: i64)
    ensures
        -9_000_000_000_000_000 <= r <= 9_000_000_000_000_000,
{
    chrono::Utc::now().timestamp_millis()
}

/// Law: when neither a read limit nor a time-to-live is requested, the secret
/// is burnt after a single read and lives one hour.
pub proof fn lemma_default_policy()
    ensures
        reads_of(None, None) == 1,
        seconds_of(None) == DEFAULT_EXPIRE_SECONDS,
{
}

/// Law: when only a time-to-live is requested, the read limit defaults to
/// unlimited.
pub proof fn lemma_time_bound_means_unlimited_reads(s: i64)
    ensures
        reads_of(None, Some(s)) == UNLIMITED_READS,
{
}

/// Law: an explicit read limit is used unchanged, whatever else was asked.
pub proof fn lemma_explicit_reads_kept(r: i64, expire_seconds: Option<i64>)
    ensures
        reads_of(Some(r), expire_seconds) == r,
{
}

/// Law: for requested lifetimes of at least one second (or none at all) the
/// normalized time-to-live lies between one second and thirty days. A
/// requested lifetime of zero or less is passed through unchanged and falls
/// outside this band; callers are trusted not to ask for one.
pub proof fn lemma_seconds_clamped(expire_seconds: Option<i64>)
    requires
        expire_seconds matches Some(v) ==> v >= 1,
    ensures
        1 <= seconds_of(expire_seconds) <= MAX_EXPIRE_SECONDS,
{
}

} // verus!
