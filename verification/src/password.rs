//! The password commitment: a fast, deterministic, non-reversible 64-bit
//! digest of the password, kept beside the record so that a later read can be
//! gated on knowing the password without the password itself being stored.
//! The digest is the FNV-1a hash of the password's UTF-8 bytes, folded into a
//! signed 64-bit value; it is explicitly not a slow password hash and grants
//! only casual protection.

use vstd::prelude::*;
use vstd::string::StringSliceAdditionalSpecFns;

verus! {

/// FNV-1a offset basis for 64-bit digests.
pub const FNV_OFFSET_BASIS: u64 = 0xcbf29ce484222325;

/// FNV-1a prime for 64-bit digests.
pub const FNV_PRIME: u64 = 0x100000001b3;

/// One FNV-1a round: fold a byte into the running digest.
pub open spec fn fnv1a_step(h: u64, b: u8) -> u64 {
    (h ^ (b as u64)).wrapping_mul(FNV_PRIME)
}

/// The digest after folding every byte of `bytes` into `h`, front to back.
pub open spec fn fnv1a_from(h: u64, bytes: Seq<u8>) -> u64
    decreases bytes.len(),
{
    if bytes.len() == 0 {
        h
    } else {
        fnv1a_from(fnv1a_step(h, bytes[0]), bytes.drop_first())
    }
}

/// The FNV-1a digest of a byte sequence.
pub open spec fn fnv1a(bytes: Seq<u8>) -> u64 {
    fnv1a_from(FNV_OFFSET_BASIS, bytes)
}

/// A 64-bit value reinterpreted as signed, two's complement.
pub open spec fn to_signed(h: u64) -> i64 {
    if h < 0x8000_0000_0000_0000 {
        h as i64
    } else {
        (h - 0x1_0000_0000_0000_0000) as i64
    }
}

/// The commitment stored for a password: the FNV-1a digest of its UTF-8
/// bytes, as a signed 64-bit value. A spec function of the password alone,
/// so equal passwords always commit to equal values.
pub open spec fn pwd_commitment(p: Seq<char>) -> i64 {
    to_signed(fnv1a(vstd::utf8::encode_utf8(p)))
}

proof fn lemma_fnv1a_from_push(h: u64, bytes: Seq<u8>, i: int)
    requires
        0 <= i < bytes.len(),
    ensures
        fnv1a_from(h, bytes.skip(i)) == fnv1a_from(fnv1a_step(h, bytes[i]), bytes.skip(i + 1)),
{
    assert(bytes.skip(i)[0] == bytes[i]);
    assert(bytes.skip(i).drop_first() =~= bytes.skip(i + 1));
}

fn fnv1a_digest(bytes: &[u8]) -> (r: u64)
    ensures
        r == fnv1a(bytes@),
{
    let mut h: u64 = FNV_OFFSET_BASIS;
    let mut i: usize = 0;
    proof {
        assert(bytes@.skip(0) =~= bytes@);
    }
    while i < bytes.len()
        invariant
            0 <= i <= bytes@.len(),
            fnv1a(bytes@) == fnv1a_from(h, bytes@.skip(i as int)),
        decreases bytes@.len() - i,
    {
        proof {
            lemma_fnv1a_from_push(h, bytes@, i as int);
        }
        h = (h ^ (bytes[i] as u64)).wrapping_mul(FNV_PRIME);
        i = i + 1;
    }
    proof {
        assert(bytes@.skip(bytes@.len() as int) =~= Seq::<u8>::empty());
    }
    h
}

fn reinterpret_signed(h: u64) -> (r: i64)
    ensures
        r == to_signed(h),
{
    if h < 0x8000_0000_0000_0000 {
        h as i64
    } else {
        let low = h - 0x8000_0000_0000_0000;
        (low as i64) + i64::MIN
    }
}

/// The commitment for a supplied password.
pub fn hash_password(p: &str) -> (r: i64)
    ensures
        r == pwd_commitment(p@),
{
    let bytes = p.as_bytes();
    proof {
        assert(bytes@ == p.spec_bytes());
    }
    reinterpret_signed(fnv1a_digest(bytes))
}

/// Law: the commitment depends on the password string alone, so the same
/// password always yields the same commitment, in any two invocations.
pub proof fn lemma_commitment_deterministic(p: Seq<char>, q: Seq<char>)
    requires
        p == q,
    ensures
        pwd_commitment(p) == pwd_commitment(q),
{
}

} // verus!
