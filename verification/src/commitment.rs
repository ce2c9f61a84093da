//! Authority-set commitment engine: a chained SHA-256 digest binding an
//! ordered list of authority public keys to one 32-byte value.
//!
//! The chain is `h[0] = H(keys[0])`, `h[i] = H(h[i-1] || keys[i])` for
//! `i < active_count`, and the commitment is the hash at the last active
//! slot, so a fixed-capacity list padded with dummy trailing entries commits
//! to exactly its active prefix.

use vstd::prelude::*;

use crate::crypto;
use crate::util;

verus! {

/// View of a list of byte vectors as a sequence of byte sequences.
pub open spec fn keys_view(keys: Seq<Vec<u8>>) -> Seq<Seq<u8>> {
    Seq::new(keys.len(), |i: int| keys[i]@)
}

/// The chained SHA-256 digest of the first `count` keys:
/// `H(..H(H(keys[0]) || keys[1]).. || keys[count-1])`.
pub open spec fn chained_hash(keys: Seq<Seq<u8>>, count: int) -> Seq<u8>
    recommends
        1 <= count <= keys.len(),
    decreases count,
{
    if count <= 1 {
        crypto::sha256_of(keys[0])
    } else {
        crypto::sha256_of(chained_hash(keys, count - 1) + keys[count - 1])
    }
}

/// Whether `digest` is the commitment of the first `count` keys.
pub open spec fn commitment_matches(keys: Seq<Seq<u8>>, count: int, digest: Seq<u8>) -> bool {
    digest == chained_hash(keys, count)
}

/// Law: a freshly computed commitment always verifies against the keys and
/// active count it was computed over.
pub proof fn lemma_commitment_roundtrip(keys: Seq<Seq<u8>>, count: int)
    requires
        1 <= count <= keys.len(),
    ensures
        commitment_matches(keys, count, chained_hash(keys, count)),
{
}

/// The commitment digest over the first `active_count` keys of a
/// fixed-capacity key list; entries past `active_count` do not enter the
/// chain. At least one authority must be active.
pub fn compute_authority_set_commitment(keys: &Vec<Vec<u8>>, active_count: usize) -> (r: Vec<u8>)
    requires
        1 <= active_count <= keys@.len(),
    ensures
        r@ == chained_hash(keys_view(keys@), active_count as int),
        r@.len() == 32,
{
    let mut acc = crypto::sha256(&keys[0]);
    let mut i: usize = 1;
    while i < active_count
        invariant
            1 <= i <= active_count <= keys@.len(),
            acc@ == chained_hash(keys_view(keys@), i as int),
            acc@.len() == 32,
        decreases active_count - i,
    {
        let mut buf: Vec<u8> = Vec::new();
        util::push_bytes(&mut buf, &acc);
        util::push_bytes(&mut buf, &keys[i]);
        assert(buf@ =~= acc@ + keys_view(keys@)[i as int]);
        acc = crypto::sha256(&buf);
        i += 1;
    }
    acc
}

/// Recompute the commitment of the first `active_count` keys and compare it
/// with an expected digest.
pub fn verify_authority_set_commitment(
    keys: &Vec<Vec<u8>>,
    active_count: usize,
    expected: &Vec<u8>,
) -> (r: bool)
    requires
        1 <= active_count <= keys@.len(),
    ensures
        r == commitment_matches(keys_view(keys@), active_count as int, expected@),
{
    let computed = compute_authority_set_commitment(keys, active_count);
    util::bytes_eq(expected, &computed)
}

} // verus!
