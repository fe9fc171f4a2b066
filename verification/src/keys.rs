//! Deterministic derivation of the two seeds that key generation consumes:
//! one for the secret key and one for the nonce of its proof of knowledge.

use ark_crypto_primitives::crh::sha256::digest::Digest;
use ark_crypto_primitives::crh::sha256::Sha256;
use vstd::prelude::*;

verus! {

/// Size in bytes of the entropy that key generation consumes.
pub const ENTROPY_SIZE: usize = 32;

/// What the SHA-256 digest of a byte string is.
pub uninterp spec fn sha256(data: Seq<u8>) -> Seq<u8>;

/// `Sha256::digest`: the 32-byte SHA-256 digest of `data`.
#[verifier::external_body]
fn sha256_digest(data: &[u8]) -> (r: [u8; 32])
    ensures
        r@ == sha256(data@),
{
    let mut out = [0u8; 32];
    out.copy_from_slice(&Sha256::digest(data));
    out
}

/// The `i`-th derived seed: the digest of the seed followed by the counter byte.
pub open spec fn derived_seed(seed: Seq<u8>, i: u8) -> Seq<u8> {
    sha256(seed + seq![i])
}

/// The digest of the seed followed by one counter byte.
fn digest_with_counter(seed: &[u8; ENTROPY_SIZE], counter: u8) -> (r: [u8; 32])
    ensures
        r@ == derived_seed(seed@, counter),
{
    let mut data: Vec<u8> = Vec::new();
    for k in 0..ENTROPY_SIZE
        invariant
            data@ == seed@.subrange(0, k as int),
    {
        data.push(seed[k]);
    }
    data.push(counter);
    assert(data@ =~= seed@ + seq![counter]);
    sha256_digest(data.as_slice())
}

/// Expands a 32-byte seed into 64 bytes: the digest of `seed || 0` followed by
/// the digest of `seed || 1`.
pub fn expand_seed(seed: [u8; ENTROPY_SIZE]) -> (r: [u8; 64])
    ensures
        r@ == derived_seed(seed@, 0) + derived_seed(seed@, 1),
        derived_seed(seed@, 0).len() == 32,
        derived_seed(seed@, 1).len() == 32,
{
    let first = digest_with_counter(&seed, 0);
    let second = digest_with_counter(&seed, 1);
    let mut output = [0u8; 64];
    for k in 0..ENTROPY_SIZE
        invariant
            first@ == derived_seed(seed@, 0),
            second@ == derived_seed(seed@, 1),
            forall|j: int| 0 <= j < k ==> output@[j] == first@[j] && output@[32 + j] == second@[j],
    {
        output[k] = first[k];
        output[ENTROPY_SIZE + k] = second[k];
    }
    assert(output@ =~= first@ + second@);
    output
}

/// The two seeds that key generation uses: the first for the secret key, the
/// second for the nonce of the proof of knowledge.
pub fn keygen_seeds(seed: [u8; ENTROPY_SIZE]) -> (r: ([u8; ENTROPY_SIZE], [u8; ENTROPY_SIZE]))
    ensures
        r.0@ == derived_seed(seed@, 0),
        r.1@ == derived_seed(seed@, 1),
{
    let expanded = expand_seed(seed);
    let ghost first = derived_seed(seed@, 0);
    let ghost second = derived_seed(seed@, 1);
    let mut seed1 = [0u8; ENTROPY_SIZE];
    let mut seed2 = [0u8; ENTROPY_SIZE];
    for k in 0..ENTROPY_SIZE
        invariant
            expanded@ == first + second,
            first.len() == 32,
            forall|j: int| 0 <= j < k ==> seed1@[j] == expanded@[j] && seed2@[j] == expanded@[32 + j],
    {
        seed1[k] = expanded[k];
        seed2[k] = expanded[ENTROPY_SIZE + k];
    }
    assert(seed1@ =~= derived_seed(seed@, 0));
    assert(seed2@ =~= derived_seed(seed@, 1));
    (seed1, seed2)
}

} // verus!
