//! Content digests of request payloads.
//!
//! A record stores a fixed-size fingerprint of the payload bytes, computed
//! deterministically from the exact request body, and duplicate detection
//! compares fingerprints by value.

use vstd::prelude::*;

verus! {

/// The number of bytes in a content digest.
pub const DIGEST_LEN: usize = 16;

/// The content digest of a byte sequence. It is a function of the bytes
/// alone: the same payload always has the same digest.
pub uninterp spec fn md5_of(bytes: Seq<u8>) -> Seq<u8>;

/// Relies on md5::compute: it returns a 16-byte digest computed from the
/// input bytes alone.
#[verifier::external_body]
pub fn digest(payload: &[u8]) -> (r: Vec<u8>)
    ensures
        r@ == md5_of(payload@),
        r@.len() == DIGEST_LEN,
{
    md5::compute(payload).0.to_vec()
}

/// Digest determinism: the digest depends on the payload bytes alone, so
/// computing it twice on identical bytes gives identical results.
pub proof fn lemma_digest_deterministic(p1: Seq<u8>, p2: Seq<u8>)
    requires
        p1 == p2,
    ensures
        md5_of(p1) == md5_of(p2),
{
}

/// Compares two byte vectors by value.
pub fn bytes_eq(a: &Vec<u8>, b: &Vec<u8>) -> (r: bool)
    ensures
        r == (a@ == b@),
{
    if a.len() != b.len() {
        return false;
    }
    let mut i: usize = 0;
    while i < a.len()
        invariant
            i <= a.len(),
            a.len() == b.len(),
            forall|j: int| 0 <= j < i ==> a@[j] == b@[j],
        decreases a.len() - i,
    {
        if a[i] != b[i] {
            return false;
        }
        i += 1;
    }
    proof {
        assert(a@ =~= b@);
    }
    true
}

} // verus!
