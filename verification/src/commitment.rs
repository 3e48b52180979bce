//! Chain commitment: a digest binding the genesis root and the fork schedule,
//! used to identify the chain a proof speaks about.

use vstd::prelude::*;

use crate::types::Bytes32;

verus! {

/// The 32-byte Keccak-256 digest of a byte string.
pub uninterp spec fn keccak_of(input: Seq<u8>) -> Seq<u8>;

/// Relies on `alloy_primitives::keccak256`: returns the 32-byte Keccak-256
/// digest of the input, a function of the input bytes alone.
#[verifier::external_body]
pub(crate) fn keccak256_digest(input: &Vec<u8>) -> (r: Vec<u8>)
    ensures
        r@ == keccak_of(input@),
        r@.len() == 32,
{
    alloy_primitives::keccak256(input.as_slice()).as_slice().to_vec()
}

/// Concatenation of two byte vectors.
pub fn concat_bytes(a: &Vec<u8>, b: &Vec<u8>) -> (r: Vec<u8>)
    ensures
        r@ == a@ + b@,
{
    let mut r: Vec<u8> = Vec::new();
    let mut i: usize = 0;
    while i < a.len()
        invariant
            0 <= i <= a@.len(),
            r@ == a@.subrange(0, i as int),
        decreases a@.len() - i,
    {
        r.push(a[i]);
        proof {
            assert(r@ =~= a@.subrange(0, i + 1 as int));
        }
        i = i + 1;
    }
    proof {
        assert(r@ =~= a@);
    }
    let mut j: usize = 0;
    while j < b.len()
        invariant
            0 <= j <= b@.len(),
            r@ == a@ + b@.subrange(0, j as int),
        decreases b@.len() - j,
    {
        r.push(b[j]);
        proof {
            assert(r@ =~= a@ + b@.subrange(0, j + 1 as int));
        }
        j = j + 1;
    }
    proof {
        assert(r@ =~= a@ + b@);
    }
    r
}

/// Commitment to the chain a proof speaks about: the Keccak-256 digest of the
/// genesis validators root followed by the canonical encoding of the fork
/// schedule.
pub fn compute_chain_commitment(genesis_root: &Bytes32, forks_encoded: &Vec<u8>) -> (r: Bytes32)
    ensures
        r@ == keccak_of(genesis_root@ + forks_encoded@),
        r.wf(),
{
    let preimage = concat_bytes(&genesis_root.bytes, forks_encoded);
    let digest = keccak256_digest(&preimage);
    Bytes32 { bytes: digest }
}

} // verus!
