//! Schnorr proofs of knowledge of the discrete logarithm of a public key,
//! made non-interactive with a Fiat-Shamir challenge.

use ark_bn254::Fr as Fq;
use ark_crypto_primitives::crh::sha256::Sha256;
use ark_ed_on_bn254::EdwardsAffine;
use ark_ff::field_hashers::{DefaultFieldHasher, HashToField};
use ark_ff::{BigInteger, PrimeField, UniformRand};
use ark_serialize::CanonicalSerialize;
use rand_chacha::rand_core::SeedableRng;
use vstd::prelude::*;

use crate::curve::{base, generator, jubjub_add, jubjub_scalar_mul, point_add, point_mul, Point};
use crate::error::WRAPSError;
use crate::field::{jubjub_order, lemma_scalar_below_order, scalar_add, scalar_eq, scalar_mul, JubJubScalar};

verus! {

/// Non-interactive proof of knowledge of the discrete logarithm of a public key.
#[derive(Clone, Copy, Debug)]
pub struct SchnorrPoK {
    pub commitment: Point,
    pub challenge: JubJubScalar,
    pub response: JubJubScalar,
}

/// A public key together with the proof that its owner knows the secret key.
#[derive(Clone, Copy, Debug)]
pub struct AttestedPublicKey {
    pub public_key: Point,
    pub pok: SchnorrPoK,
}

/// What the compressed encoding of a curve point is: its y-coordinate with the
/// sign of its x-coordinate in a flag bit.
pub uninterp spec fn compressed_encoding(p: (nat, nat)) -> Seq<u8>;

/// What `DefaultFieldHasher<Sha256>` with an empty domain separator hashes a
/// byte string to, as one scalar.
pub uninterp spec fn sha256_to_scalar(bytes: Seq<u8>) -> nat;

/// What a scalar drawn from a ChaCha8 generator seeded with `seed` is.
pub uninterp spec fn seeded_scalar(seed: Seq<u8>) -> nat;

/// The Fiat-Shamir challenge for a statement and a commitment: the compressed
/// encodings of the generator, the statement and the commitment, in this
/// order, hashed to a scalar.
pub open spec fn fiat_shamir(statement: (nat, nat), commitment: (nat, nat)) -> nat {
    sha256_to_scalar(challenge_transcript(statement, commitment))
}

/// The bytes the Fiat-Shamir challenge hashes: the compressed encodings of the
/// generator, the statement and the commitment, in this order.
pub open spec fn challenge_transcript(statement: (nat, nat), commitment: (nat, nat)) -> Seq<u8> {
    compressed_encoding(base()) + compressed_encoding(statement) + compressed_encoding(commitment)
}

/// The challenge transcript starts with the generator's encoding, carries the
/// statement's encoding right after it and ends with the commitment's
/// encoding. So statements with different encodings give different
/// transcripts for the same commitment, and commitments with different
/// encodings give different transcripts for the same statement.
pub proof fn lemma_challenge_transcript_binds(
    statement: (nat, nat),
    commitment: (nat, nat),
    other_statement: (nat, nat),
    other_commitment: (nat, nat),
)
    ensures
        ({
            let t = challenge_transcript(statement, commitment);
            let g = compressed_encoding(base()).len() as int;
            let s = compressed_encoding(statement).len() as int;
            &&& t.len() == g + s + compressed_encoding(commitment).len()
            &&& t.subrange(0, g) == compressed_encoding(base())
            &&& t.subrange(g as int, g + s) == compressed_encoding(statement)
            &&& t.subrange(g + s, t.len() as int) == compressed_encoding(commitment)
        }),
        compressed_encoding(statement) != compressed_encoding(other_statement) ==> challenge_transcript(statement, commitment)
            != challenge_transcript(other_statement, commitment),
        compressed_encoding(commitment) != compressed_encoding(other_commitment) ==> challenge_transcript(statement, commitment)
            != challenge_transcript(statement, other_commitment),
{
    let gen = compressed_encoding(base());
    let es = compressed_encoding(statement);
    let ec = compressed_encoding(commitment);
    let gl = gen.len() as int;
    let sl = es.len() as int;
    let t = challenge_transcript(statement, commitment);
    assert(t.subrange(0, gl) =~= gen);
    assert(t.subrange(gl, gl + sl) =~= es);
    assert(t.subrange(gl + sl, t.len() as int) =~= ec);
    if es != compressed_encoding(other_statement) {
        let eo = compressed_encoding(other_statement);
        let u = challenge_transcript(other_statement, commitment);
        if t == u {
            // equal transcripts with the same prefix and suffix have equal middles
            assert(u.len() == gen.len() + eo.len() + ec.len());
            assert(es.len() == eo.len());
            assert(u.subrange(gl, gl + eo.len() as int) =~= eo);
            assert(false);
        }
    }
    if ec != compressed_encoding(other_commitment) {
        let eo = compressed_encoding(other_commitment);
        let u = challenge_transcript(statement, other_commitment);
        if t == u {
            assert(u.len() == gen.len() + es.len() + eo.len());
            assert(u.subrange(gl + sl, u.len() as int) =~= eo);
            assert(false);
        }
    }
}

/// Whether a proof of knowledge holds for a public key: `g * response` equals
/// `commitment + pk * challenge` and the challenge is the Fiat-Shamir one.
pub open spec fn pok_verdict(pk: (nat, nat), pok_commitment: (nat, nat), pok_challenge: nat, pok_response: nat) -> bool {
    &&& jubjub_scalar_mul(base(), pok_response) == jubjub_add(pok_commitment, jubjub_scalar_mul(pk, pok_challenge))
    &&& fiat_shamir(pk, pok_commitment) == pok_challenge
}

/// Whether the proof of an attested public key holds.
pub open spec fn attested_verdict(a: AttestedPublicKey) -> bool {
    pok_verdict(a.public_key@, a.pok.commitment@, a.pok.challenge@, a.pok.response@)
}

/// Whether `pok` is the honest proof for the secret `x` with nonce `nonce`:
/// the key is `g * x`, the commitment `g * nonce`, the challenge the
/// Fiat-Shamir one and the response `nonce + challenge * x`.
pub open spec fn is_honest_proof(pk: (nat, nat), pok: SchnorrPoK, x: nat, nonce: nat) -> bool {
    &&& x < jubjub_order()
    &&& nonce < jubjub_order()
    &&& pk == jubjub_scalar_mul(base(), x)
    &&& pok.commitment@ == jubjub_scalar_mul(base(), nonce)
    &&& pok.challenge@ == fiat_shamir(pk, pok.commitment@)
    &&& pok.response@ == (nonce + pok.challenge@ * x) % jubjub_order()
}

/// `CanonicalSerialize::serialize_compressed` of an `EdwardsAffine` point into
/// a `Vec`. Writing the y-coordinate with a one-bit flag into a `Vec` does not
/// fail.
#[verifier::external_body]
fn point_encoding(p: &Point) -> (r: Vec<u8>)
    ensures
        r@ == compressed_encoding(p@),
{
    let a = EdwardsAffine::new_unchecked(Fq::from_le_bytes_mod_order(&p.x.bytes), Fq::from_le_bytes_mod_order(&p.y.bytes));
    let mut out = Vec::new();
    a.serialize_compressed(&mut out).expect("serialising into a Vec does not fail");
    out
}

/// `HashToField::hash_to_field::<1>` of `DefaultFieldHasher<Sha256>` built
/// with an empty domain separator: the byte string hashed to one scalar.
#[verifier::external_body]
fn hash_to_scalar(bytes: &[u8]) -> (r: JubJubScalar)
    ensures
        r@ == sha256_to_scalar(bytes@),
{
    let hasher = <DefaultFieldHasher<Sha256> as HashToField<ark_ed_on_bn254::Fr>>::new(&[]);
    let c: ark_ed_on_bn254::Fr = hasher.hash_to_field::<1>(bytes)[0];
    let mut out = [0u8; 32];
    out.copy_from_slice(&c.into_bigint().to_bytes_le());
    JubJubScalar { bytes: out }
}

/// Appends `tail` to `data`.
fn append_bytes(data: &mut Vec<u8>, tail: &Vec<u8>)
    ensures
        final(data)@ == old(data)@ + tail@,
{
    let n = tail.len();
    for i in 0..n
        invariant
            n == tail@.len(),
            data@ == old(data)@ + tail@.subrange(0, i as int),
    {
        data.push(tail[i]);
    }
    assert(tail@.subrange(0, n as int) =~= tail@);
}

/// The Fiat-Shamir challenge of a proof of knowledge: the compressed
/// encodings of the generator, the statement and the commitment, hashed to a
/// scalar.
pub fn fiat_shamir_challenge(statement: &Point, commitment: &Point) -> (r: JubJubScalar)
    ensures
        r@ == fiat_shamir(statement@, commitment@),
        r@ == sha256_to_scalar(compressed_encoding(base()) + compressed_encoding(statement@) + compressed_encoding(commitment@)),
{
    let mut data = point_encoding(&generator());
    append_bytes(&mut data, &point_encoding(statement));
    append_bytes(&mut data, &point_encoding(commitment));
    hash_to_scalar(data.as_slice())
}

/// `UniformRand::rand` for the scalar field, drawn from
/// `ChaCha8Rng::from_seed(seed)`.
#[verifier::external_body]
fn scalar_from_seed(seed: [u8; 32]) -> (r: JubJubScalar)
    ensures
        r@ == seeded_scalar(seed@),
{
    let s = ark_ed_on_bn254::Fr::rand(&mut rand_chacha::ChaCha8Rng::from_seed(seed));
    let mut out = [0u8; 32];
    out.copy_from_slice(&s.into_bigint().to_bytes_le());
    JubJubScalar { bytes: out }
}

/// Generates a Schnorr proof of knowledge of the secret key `x`: with the
/// nonce `r` drawn from `seed`, the commitment is `g * r`, the challenge is the
/// Fiat-Shamir challenge of `(g * x, g * r)` and the response is `r + c * x`.
/// It always succeeds.
pub fn generate_proof_of_knowledge(x: &JubJubScalar, seed: [u8; 32]) -> (res: Result<SchnorrPoK, WRAPSError>)
    ensures
        res matches Ok(pok) && is_honest_proof(jubjub_scalar_mul(base(), x@), pok, x@, seeded_scalar(seed@)),
{
    let g = generator();
    let statement = point_mul(&g, x);
    let r = scalar_from_seed(seed);
    let commitment = point_mul(&g, &r);
    let challenge = fiat_shamir_challenge(&statement, &commitment);
    let response = scalar_add(&r, &scalar_mul(&challenge, x));
    proof {
        lemma_scalar_below_order(r);
        lemma_scalar_below_order(*x);
        lemma_response_mod(r@, challenge@, x@);
    }
    Ok(SchnorrPoK { commitment, challenge, response })
}

proof fn lemma_response_mod(nonce: nat, c: nat, x: nat)
    requires
        nonce < jubjub_order(),
    ensures
        (nonce + (c * x) % jubjub_order()) % jubjub_order() == (nonce + c * x) % jubjub_order(),
        (nonce + (x * c) % jubjub_order()) % jubjub_order() == (nonce + c * x) % jubjub_order(),
{
    vstd::arithmetic::div_mod::lemma_add_mod_noop(nonce as int, (c * x) as int, jubjub_order() as int);
    vstd::arithmetic::div_mod::lemma_mod_twice(nonce as int, jubjub_order() as int);
    vstd::arithmetic::mul::lemma_mul_is_commutative(c as int, x as int);
}

/// Verifies a Schnorr proof of knowledge for `pubkey`. The sentinel key is a
/// placeholder without a signer: its proof is not checked and it is accepted.
/// For any other key the Fiat-Shamir challenge is recomputed, and the proof
/// holds when `g * response` equals `commitment + pubkey * challenge` and the
/// recomputed challenge is the proof's. An honestly generated proof always
/// holds.
pub fn verify_proof_of_knowledge(pok: &SchnorrPoK, pubkey: &Point, sentinel: &Point) -> (res: Result<bool, WRAPSError>)
    ensures
        pubkey@ == sentinel@ ==> res == Ok::<bool, WRAPSError>(true),
        pubkey@ != sentinel@ ==> res == Ok::<bool, WRAPSError>(
            pok_verdict(pubkey@, pok.commitment@, pok.challenge@, pok.response@),
        ),
        pubkey@ != sentinel@ ==> (res == Ok::<bool, WRAPSError>(true) <==> (
            jubjub_scalar_mul(base(), pok.response@) == jubjub_add(pok.commitment@, jubjub_scalar_mul(pubkey@, pok.challenge@))
            && pok.challenge@ == sha256_to_scalar(
                compressed_encoding(base()) + compressed_encoding(pubkey@) + compressed_encoding(pok.commitment@),
            ))),
        forall|x: nat, nonce: nat| #[trigger] is_honest_proof(pubkey@, *pok, x, nonce) ==> res == Ok::<bool, WRAPSError>(true),
{
    if pubkey.equals(sentinel) {
        return Ok(true);
    }
    let g = generator();
    let challenge = fiat_shamir_challenge(pubkey, &pok.commitment);
    let lhs = point_mul(&g, &pok.response);
    let pk_c = point_mul(pubkey, &pok.challenge);
    let rhs = point_add(&pok.commitment, &pk_c);
    proof {
        assert forall|x: nat, nonce: nat| #[trigger] is_honest_proof(pubkey@, *pok, x, nonce) implies lhs@ == rhs@ by {
            let c = pok.challenge@;
            assert(pk_c@ == jubjub_scalar_mul(base(), (x * c) % jubjub_order()));
            assert(rhs@ == jubjub_scalar_mul(base(), (nonce + (x * c) % jubjub_order()) % jubjub_order()));
            lemma_response_mod(nonce, c, x);
        }
    }
    Ok(lhs.equals(&rhs) && scalar_eq(&challenge, &pok.challenge))
}

} // verus!
