//! Content-addressed version markers.
//!
//! An artifact's hash is a deterministic digest (FNV-1a over the character
//! sequence) used as an optimistic-concurrency token: two reads of unchanged
//! content always yield the same hash, and an edit is accepted only when the
//! caller presents the hash of the content it last read.

use vstd::prelude::*;

verus! {

/// One FNV-1a folding step: mix a character into the running digest.
pub open spec fn fnv_step(h: u64, c: char) -> u64 {
    (h ^ (c as u64)).wrapping_mul(0x100000001b3)
}

/// Digest of a character sequence, folding left to right from the FNV offset
/// basis.
pub open spec fn digest(s: Seq<char>) -> u64
    decreases s.len(),
{
    if s.len() == 0 {
        0xcbf29ce484222325u64
    } else {
        fnv_step(digest(s.drop_last()), s.last())
    }
}

/// Compute the digest of `content`. The result equals `digest(content@)`,
/// so equal contents always hash alike.
pub fn content_hash(content: &[char]) -> (h: u64)
    ensures
        h == digest(content@),
{
    let mut h: u64 = 0xcbf29ce484222325;
    let mut i: usize = 0;
    while i < content.len()
        invariant
            i <= content.len(),
            h == digest(content@.take(i as int)),
        decreases content.len() - i,
    {
        proof {
            assert(content@.take(i + 1).drop_last() =~= content@.take(i as int));
            assert(content@.take(i + 1).last() == content@[i as int]);
        }
        h = (h ^ (content[i] as u64)).wrapping_mul(0x100000001b3);
        i = i + 1;
    }
    proof {
        assert(content@.take(content@.len() as int) =~= content@);
    }
    h
}

} // verus!
