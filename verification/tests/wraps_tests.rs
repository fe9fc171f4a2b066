use ark_crypto_primitives::crh::sha256::digest::Digest;
use ark_crypto_primitives::crh::sha256::Sha256;
use ark_ec::{AffineRepr, CurveGroup, PrimeGroup};
use ark_ed_on_bn254::{EdwardsAffine, EdwardsProjective};
use ark_ff::{BigInteger, PrimeField};

use wraps::addressbook::{
    addressbook_hash_input, addressbook_total_weight, aggregate_public_key, pad_addressbook,
    participating_weight, signing_participants, verify_addressbook, AddressBookEntry, MAX_AB_SIZE,
};
use wraps::curve::Point;
use wraps::error::WRAPSError;
use wraps::field::{FieldElement, JubJubScalar};
use wraps::keys::{expand_seed, keygen_seeds};
use wraps::pok::{generate_proof_of_knowledge, verify_proof_of_knowledge, AttestedPublicKey};
use wraps::protocol::{
    hints_vk_hash_input, SchnorrMultiSignature, SchnorrSignature, SigningProtocolPhase, SigningRound, TSSFCircuit, WRAPS,
    MAX_EXT_INPUTS,
};

fn fe(v: u64) -> FieldElement {
    FieldElement::from_le_bytes_mod_order(&v.to_le_bytes())
}

fn sc(v: u64) -> JubJubScalar {
    JubJubScalar::from_le_bytes_mod_order(&v.to_le_bytes())
}

fn fe_bytes(v: u64) -> [u8; 32] {
    let mut b = [0u8; 32];
    b[..8].copy_from_slice(&v.to_le_bytes());
    b
}

fn point_of(a: EdwardsAffine) -> Point {
    let x = FieldElement::from_le_bytes_mod_order(&a.x.into_bigint().to_bytes_le());
    let y = FieldElement::from_le_bytes_mod_order(&a.y.into_bigint().to_bytes_le());
    Point::from_coordinates(x, y).unwrap()
}

fn public_key(secret: u64) -> Point {
    point_of((EdwardsProjective::generator() * ark_ed_on_bn254::Fr::from(secret)).into_affine())
}

fn attested(secret: u64, seed: u8) -> AttestedPublicKey {
    let pok = generate_proof_of_knowledge(&sc(secret), [seed; 32]).unwrap();
    AttestedPublicKey { public_key: public_key(secret), pok }
}

fn entry(secret: u64, weight: u64, node_id: u64) -> AddressBookEntry {
    AddressBookEntry { attested: attested(secret, secret as u8), weight: fe(weight), node_id: fe(node_id) }
}

fn sentinel() -> Point {
    public_key(987654321)
}

fn book(n: u64) -> Vec<AddressBookEntry> {
    (0..n).map(|i| entry(i + 2, 500 + i, i)).collect()
}

fn modulus_minus_one_bytes() -> [u8; 32] {
    let mut b = [0u8; 32];
    b.copy_from_slice(&(-ark_bn254::Fr::from(1u64)).into_bigint().to_bytes_le());
    b
}

#[test]
fn field_element_reduces_modulo_the_order() {
    let modulus = ark_bn254::Fr::MODULUS.to_bytes_le();
    assert_eq!(FieldElement::from_le_bytes_mod_order(&modulus).to_bytes_le(), [0u8; 32]);
    assert_eq!(fe(7).to_bytes_le(), fe_bytes(7));
    assert!(fe(7).equals(&fe(7)));
    assert!(!fe(7).equals(&fe(8)));
    let mut over = modulus.clone();
    over[0] += 5;
    assert_eq!(FieldElement::from_le_bytes_mod_order(&over).to_bytes_le(), fe_bytes(5));
}

#[test]
fn jubjub_scalar_reduces_modulo_the_order() {
    let order = ark_ed_on_bn254::Fr::MODULUS.to_bytes_le();
    assert_eq!(JubJubScalar::from_le_bytes_mod_order(&order).to_bytes_le(), [0u8; 32]);
    assert_eq!(sc(42).to_bytes_le(), fe_bytes(42));
    assert!(sc(3).equals(&sc(3)));
    assert!(!sc(3).equals(&sc(4)));
}

#[test]
fn points_must_satisfy_the_curve_equation() {
    assert!(Point::from_coordinates(fe(0), fe(1)).is_some());
    assert!(Point::from_coordinates(fe(0), fe(0)).is_none());
    assert!(Point::from_coordinates(fe(1), fe(1)).is_none());
    let g = public_key(1);
    let g_ark = EdwardsAffine::generator();
    assert_eq!(g.x().to_bytes_le().to_vec(), g_ark.x.into_bigint().to_bytes_le());
    assert_eq!(g.y().to_bytes_le().to_vec(), g_ark.y.into_bigint().to_bytes_le());
    assert!(g.equals(&public_key(1)));
    assert!(!g.equals(&public_key(2)));
}

#[test]
fn generated_proof_of_knowledge_verifies() {
    for secret in [1u64, 5, 123456789] {
        let a = attested(secret, 9);
        assert!(verify_proof_of_knowledge(&a.pok, &a.public_key, &sentinel()).unwrap());
    }
}

#[test]
fn proof_of_knowledge_is_deterministic_in_the_seed() {
    let a = generate_proof_of_knowledge(&sc(11), [3u8; 32]).unwrap();
    let b = generate_proof_of_knowledge(&sc(11), [3u8; 32]).unwrap();
    let c = generate_proof_of_knowledge(&sc(11), [4u8; 32]).unwrap();
    assert!(a.commitment.equals(&b.commitment));
    assert!(a.challenge.equals(&b.challenge) && a.response.equals(&b.response));
    assert!(!a.commitment.equals(&c.commitment));
}

#[test]
fn proof_of_knowledge_response_is_nonce_plus_challenge_times_secret() {
    let secret = 77u64;
    let seed = [8u8; 32];
    let pok = generate_proof_of_knowledge(&sc(secret), seed).unwrap();
    let nonce = <ark_ed_on_bn254::Fr as ark_std::UniformRand>::rand(&mut <rand_chacha::ChaCha8Rng as rand_chacha::rand_core::SeedableRng>::from_seed(seed));
    let challenge = ark_ed_on_bn254::Fr::from_le_bytes_mod_order(&pok.challenge.to_bytes_le());
    let expected = nonce + challenge * ark_ed_on_bn254::Fr::from(secret);
    assert_eq!(pok.response.to_bytes_le().to_vec(), expected.into_bigint().to_bytes_le());
    let commitment = (EdwardsProjective::generator() * nonce).into_affine();
    assert!(pok.commitment.equals(&point_of(commitment)));
}

#[test]
fn tampered_proof_of_knowledge_is_rejected() {
    let a = attested(5, 1);
    let mut bad = a.pok;
    bad.response = sc(12345);
    assert!(!verify_proof_of_knowledge(&bad, &a.public_key, &sentinel()).unwrap());
    let mut bad_challenge = a.pok;
    bad_challenge.challenge = sc(1);
    assert!(!verify_proof_of_knowledge(&bad_challenge, &a.public_key, &sentinel()).unwrap());
    assert!(!verify_proof_of_knowledge(&a.pok, &public_key(6), &sentinel()).unwrap());
}

#[test]
fn valid_addressbook_is_accepted() {
    let ab = book(6);
    assert!(verify_addressbook(&ab, &sentinel()).unwrap());
    assert!(verify_addressbook(&Vec::new(), &sentinel()).unwrap());
}

#[test]
fn addressbook_with_invalid_proof_is_rejected() {
    let mut ab = book(4);
    ab[2].attested.pok.response = sc(1);
    assert!(!verify_addressbook(&ab, &sentinel()).unwrap());
}

#[test]
fn oversized_addressbook_is_an_error() {
    let e = entry(3, 1, 1);
    let ab: Vec<AddressBookEntry> = (0..MAX_AB_SIZE + 1).map(|_| e).collect();
    assert!(matches!(verify_addressbook(&ab, &sentinel()), Err(WRAPSError::AddressBookSizeExceeded)));
    let full: Vec<AddressBookEntry> = (0..MAX_AB_SIZE).map(|_| e).collect();
    assert!(verify_addressbook(&full, &sentinel()).unwrap());
}

#[test]
fn verify_addressbook_accepts_mixed_sentinel_entries() {
    let mut rng = <rand_chacha::ChaCha8Rng as rand_chacha::rand_core::SeedableRng>::from_seed([42u8; 32]);
    let ab_size = 30u64;
    let sentinel_key = WRAPS::sentinel_keygen(&sentinel());
    let mut ab = Vec::new();
    for i in 0..ab_size {
        let attested_pk = if i % 3 == 0 { sentinel_key } else { attested(i + 2, i as u8) };
        let weight = 475 + rand_chacha::rand_core::RngCore::next_u64(&mut rng) % 51;
        ab.push(AddressBookEntry { attested: attested_pk, weight: fe(weight), node_id: fe(i) });
    }
    // both branches of the address-book check are exercised
    assert!(ab.iter().any(|e| e.attested.public_key.equals(&sentinel())));
    assert!(ab.iter().any(|e| !e.attested.public_key.equals(&sentinel())));
    assert!(verify_addressbook(&ab, &sentinel()).unwrap());
}

#[test]
fn sentinel_key_attested_pok_verifies_and_is_deterministic() {
    let (pk1, pok1) = {
        let a = WRAPS::sentinel_keygen(&sentinel());
        (a.public_key, a.pok)
    };
    // a real, on-curve, non-identity point in the prime-order subgroup
    let ark_pk = EdwardsAffine::new_unchecked(
        ark_bn254::Fr::from_le_bytes_mod_order(&pk1.x().to_bytes_le()),
        ark_bn254::Fr::from_le_bytes_mod_order(&pk1.y().to_bytes_le()),
    );
    assert!(ark_pk.is_on_curve());
    assert!(ark_pk.is_in_correct_subgroup_assuming_on_curve());
    assert!(!ark_pk.is_zero());
    // the proof checks short-circuit for the sentinel key
    assert!(verify_proof_of_knowledge(&pok1, &pk1, &sentinel()).unwrap());
    // determinism
    let b = WRAPS::sentinel_keygen(&sentinel());
    assert!(pk1.equals(&b.public_key), "sentinel public key must be deterministic");
    assert!(pok1.commitment.equals(&b.pok.commitment));
    assert!(pok1.challenge.equals(&b.pok.challenge));
    assert!(pok1.response.equals(&b.pok.response));
}

#[test]
fn sentinel_key_is_deterministic_with_zero_proof() {
    let a = WRAPS::sentinel_keygen(&sentinel());
    let b = WRAPS::sentinel_keygen(&sentinel());
    assert!(a.public_key.equals(&b.public_key));
    assert!(a.public_key.equals(&sentinel()));
    assert!(a.pok.commitment.equals(&Point::from_coordinates(fe(0), fe(1)).unwrap()));
    assert!(a.pok.challenge.equals(&sc(0)) && a.pok.response.equals(&sc(0)));
    assert!(a.pok.challenge.equals(&b.pok.challenge) && a.pok.response.equals(&b.pok.response));
}

#[test]
fn padding_fills_up_with_zero_weight_dummies() {
    let ab = book(3);
    let dummy = attested(1000, 2);
    let padded = pad_addressbook(&ab, &dummy);
    assert_eq!(padded.len(), MAX_AB_SIZE);
    for i in 0..3 {
        assert!(padded[i].attested.public_key.equals(&ab[i].attested.public_key));
        assert!(padded[i].weight.equals(&ab[i].weight));
    }
    for i in 3..MAX_AB_SIZE {
        assert!(padded[i].attested.public_key.equals(&dummy.public_key));
        assert_eq!(padded[i].weight.to_bytes_le(), [0u8; 32]);
        assert_eq!(padded[i].node_id.to_bytes_le(), modulus_minus_one_bytes());
    }
    let twice = pad_addressbook(&padded, &dummy);
    assert_eq!(twice.len(), MAX_AB_SIZE);
    assert!(twice[5].node_id.equals(&padded[5].node_id));
}

#[test]
fn hash_input_lists_columns() {
    let ab = book(3);
    let input = addressbook_hash_input(&ab);
    assert_eq!(input.len(), 12);
    for i in 0..3 {
        assert!(input[i].equals(&ab[i].attested.public_key.x()));
        assert!(input[3 + i].equals(&ab[i].attested.public_key.y()));
        assert!(input[6 + i].equals(&ab[i].weight));
        assert!(input[9 + i].equals(&ab[i].node_id));
    }
}

#[test]
fn addressbook_hash_preimage_pads_and_checks() {
    let ab = book(2);
    let dummy = attested(1000, 2);
    let input = WRAPS::addressbook_hash_preimage(&ab, &sentinel(), &dummy).unwrap();
    assert_eq!(input.len(), 4 * MAX_AB_SIZE);
    assert!(input[1].equals(&ab[1].attested.public_key.x()));
    assert!(input[2].equals(&dummy.public_key.x()));
    assert_eq!(input[2 * MAX_AB_SIZE + 5].to_bytes_le(), [0u8; 32]);
    assert_eq!(input[3 * MAX_AB_SIZE + 5].to_bytes_le(), modulus_minus_one_bytes());
    let mut bad = ab.clone();
    bad[0].attested.pok.response = sc(2);
    match WRAPS::addressbook_hash_preimage(&bad, &sentinel(), &dummy) {
        Err(WRAPSError::InvalidInput(m)) => assert_eq!(m, "Invalid AddressBook"),
        _ => panic!("expected an invalid input error"),
    }
}

#[test]
fn participants_follow_the_bitvector() {
    let ab = book(5);
    let bits = [true, false, true, true];
    let keys = signing_participants(&ab, &bits);
    assert_eq!(keys.len(), 3);
    assert!(keys[0].equals(&ab[0].attested.public_key));
    assert!(keys[1].equals(&ab[2].attested.public_key));
    assert!(keys[2].equals(&ab[3].attested.public_key));
    // pairs are formed up to the shorter of the two
    let long_bits = [true; 9];
    assert_eq!(signing_participants(&ab, &long_bits).len(), 5);
}

#[test]
fn weights_are_summed_in_the_field() {
    let ab = book(4); // weights 500, 501, 502, 503
    assert_eq!(addressbook_total_weight(&ab).to_bytes_le(), fe_bytes(2006));
    assert_eq!(participating_weight(&ab, &[false, true, false, true]).to_bytes_le(), fe_bytes(1004));
    assert_eq!(participating_weight(&ab, &[]).to_bytes_le(), [0u8; 32]);
}

#[test]
fn aggregate_key_is_the_group_sum() {
    let keys = vec![public_key(3), public_key(4), public_key(10)];
    let expected = public_key(17);
    assert!(aggregate_public_key(&keys).equals(&expected));
    assert!(aggregate_public_key(&Vec::new()).equals(&Point::from_coordinates(fe(0), fe(1)).unwrap()));
}

fn bits128(f: impl Fn(usize) -> bool) -> [bool; MAX_AB_SIZE] {
    let mut b = [false; MAX_AB_SIZE];
    for i in 0..MAX_AB_SIZE {
        b[i] = f(i);
    }
    b
}

fn multisig(bitvector: [bool; MAX_AB_SIZE]) -> SchnorrMultiSignature {
    SchnorrMultiSignature { bitvector, signature: SchnorrSignature { verifier_challenge: sc(1), prover_response: sc(2) } }
}

#[test]
fn sufficient_signers_give_the_aggregate_key() {
    let ab = book(6);
    let bits = bits128(|i| i % 2 == 0 || i % 3 == 0);
    let key = WRAPS::signature_verification_key(&ab, &sentinel(), &multisig(bits)).unwrap().unwrap();
    let expected = aggregate_public_key(&signing_participants(&ab, &bits));
    assert!(key.equals(&expected));
    // just over half the weight is enough
    let over_half = vec![entry(2, 11, 0), entry(3, 10, 1)];
    assert!(WRAPS::signature_verification_key(&over_half, &sentinel(), &multisig(bits128(|i| i == 0))).unwrap().is_some());
}

#[test]
fn insufficient_signers_are_refused() {
    let ab = book(6);
    let bits = bits128(|i| i % 3 == 0);
    assert!(WRAPS::signature_verification_key(&ab, &sentinel(), &multisig(bits)).unwrap().is_none());
    let mut bad = ab.clone();
    bad[1].attested.pok.response = sc(3);
    assert!(WRAPS::signature_verification_key(&bad, &sentinel(), &multisig(bits128(|_| true))).unwrap().is_none());
    // exactly half the weight is not more than half
    let half = vec![entry(2, 10, 0), entry(3, 10, 1)];
    assert!(WRAPS::signature_verification_key(&half, &sentinel(), &multisig(bits128(|i| i == 0))).unwrap().is_none());
}

fn invalid_message<T>(r: Result<T, WRAPSError>) -> String {
    match r {
        Err(WRAPSError::InvalidInput(m)) => m,
        _ => panic!("expected an invalid input error"),
    }
}

#[test]
fn signing_round_one_needs_entropy_and_no_messages() {
    let ab = book(3);
    let bits = [true, true, false];
    let msg = vec![vec![1u8]];
    let r = WRAPS::signing_protocol_round(SigningProtocolPhase::R1, Some([1u8; 32]), None, &ab, &bits, &[], &[], &[]);
    assert!(matches!(r, Ok(SigningRound::R1 { entropy }) if entropy == [1u8; 32]));
    let r = WRAPS::signing_protocol_round(SigningProtocolPhase::R1, Some([1u8; 32]), None, &ab, &bits, &msg, &[], &[]);
    assert_eq!(invalid_message(r), "R1 expects empty round1/round2/round3 message vectors");
    let r = WRAPS::signing_protocol_round(SigningProtocolPhase::R1, None, None, &ab, &bits, &[], &[], &[]);
    assert_eq!(invalid_message(r), "R1 requires protocol_instance_entropy");
}

#[test]
fn signing_round_two_needs_one_message_per_signer() {
    let ab = book(3);
    let bits = [true, true, false];
    let two = vec![vec![1u8], vec![2u8]];
    let r = WRAPS::signing_protocol_round(SigningProtocolPhase::R2, Some([2u8; 32]), None, &ab, &bits, &two, &[], &[]);
    assert!(matches!(r, Ok(SigningRound::R2 { .. })));
    let r = WRAPS::signing_protocol_round(SigningProtocolPhase::R2, Some([2u8; 32]), None, &ab, &bits, &two[..1], &[], &[]);
    assert_eq!(invalid_message(r), "R2 requires one round1 message per participating signer");
    let r = WRAPS::signing_protocol_round(SigningProtocolPhase::R2, Some([2u8; 32]), None, &ab, &bits, &two, &two, &[]);
    assert_eq!(invalid_message(r), "R2 expects empty round2/round3 message vectors");
    let r = WRAPS::signing_protocol_round(SigningProtocolPhase::R2, None, None, &ab, &bits, &two, &[], &[]);
    assert_eq!(invalid_message(r), "R2 requires protocol_instance_entropy");
}

#[test]
fn signing_round_three_needs_the_signing_key() {
    let ab = book(3);
    let bits = [false, true, true];
    let two = vec![vec![1u8], vec![2u8]];
    let key = sc(9);
    let r = WRAPS::signing_protocol_round(SigningProtocolPhase::R3, Some([3u8; 32]), Some(&key), &ab, &bits, &two, &two, &[]);
    match r {
        Ok(SigningRound::R3 { participant_pubkeys, signing_key, .. }) => {
            assert_eq!(participant_pubkeys.len(), 2);
            assert!(participant_pubkeys[0].equals(&ab[1].attested.public_key));
            assert!(signing_key.equals(&key));
        }
        _ => panic!("expected round three"),
    }
    let r = WRAPS::signing_protocol_round(SigningProtocolPhase::R3, Some([3u8; 32]), Some(&key), &ab, &bits, &two, &two[..1], &[]);
    assert_eq!(invalid_message(r), "R3 requires round1 and round2 message vectors to match participating signer count");
    let r = WRAPS::signing_protocol_round(SigningProtocolPhase::R3, Some([3u8; 32]), Some(&key), &ab, &bits, &two, &two, &two);
    assert_eq!(invalid_message(r), "R3 expects an empty round3 message vector");
    let r = WRAPS::signing_protocol_round(SigningProtocolPhase::R3, None, Some(&key), &ab, &bits, &two, &two, &[]);
    assert_eq!(invalid_message(r), "R3 requires protocol_instance_entropy");
    let r = WRAPS::signing_protocol_round(SigningProtocolPhase::R3, Some([3u8; 32]), None, &ab, &bits, &two, &two, &[]);
    assert_eq!(invalid_message(r), "R3 requires a signing key");
}

#[test]
fn aggregation_pads_the_bitvector_and_refuses_entropy() {
    let ab = book(3);
    let bits = [true, false, true];
    let two = vec![vec![1u8], vec![2u8]];
    let r = WRAPS::signing_protocol_round(SigningProtocolPhase::Aggregate, None, None, &ab, &bits, &two, &two, &two);
    match r {
        Ok(SigningRound::Aggregate { participant_pubkeys, padded_bitvector }) => {
            assert_eq!(participant_pubkeys.len(), 2);
            assert!(padded_bitvector[0] && !padded_bitvector[1] && padded_bitvector[2]);
            assert!(padded_bitvector[3..].iter().all(|b| !b));
        }
        _ => panic!("expected aggregation"),
    }
    let r = WRAPS::signing_protocol_round(SigningProtocolPhase::Aggregate, None, None, &ab, &bits, &two, &two, &two[..1]);
    assert_eq!(invalid_message(r), "Aggregate requires round1/round2/round3 message vectors to match participating signer count");
    let r = WRAPS::signing_protocol_round(SigningProtocolPhase::Aggregate, Some([0u8; 32]), None, &ab, &bits, &two, &two, &two);
    assert_eq!(invalid_message(r), "Aggregate must not provide protocol_instance_entropy");
}

#[test]
fn overlong_bitvector_is_refused() {
    let ab = book(2);
    let bits = [true; MAX_AB_SIZE + 1];
    let r = WRAPS::signing_protocol_round(SigningProtocolPhase::R1, Some([1u8; 32]), None, &ab, &bits, &[], &[], &[]);
    assert_eq!(invalid_message(r), "Bitvector exceeds maximum supported address book size");
}

#[test]
fn phase_codes() {
    assert_eq!(SigningProtocolPhase::R1.code(), 1);
    assert_eq!(SigningProtocolPhase::R2.code(), 2);
    assert_eq!(SigningProtocolPhase::R3.code(), 3);
    assert_eq!(SigningProtocolPhase::Aggregate.code(), 4);
}

#[test]
fn seed_expansion_hashes_seed_and_counter() {
    let seed = [7u8; 32];
    let expanded = expand_seed(seed);
    for i in 0..2u8 {
        let mut h = Sha256::new();
        h.update(seed);
        h.update([i; 1]);
        let d = h.finalize();
        assert_eq!(&expanded[32 * i as usize..32 * (i as usize + 1)], d.as_slice());
    }
    let (s1, s2) = keygen_seeds(seed);
    assert_eq!(&s1[..], &expanded[..32]);
    assert_eq!(&s2[..], &expanded[32..]);
    assert_ne!(s1, seed);
}

#[test]
fn rotation_message_concatenates_hashes() {
    let m = WRAPS::rotation_message(&fe(0x0102), &fe(5));
    assert_eq!(m.len(), 64);
    assert_eq!(&m[..32], &fe_bytes(0x0102));
    assert_eq!(&m[32..], &fe_bytes(5));
}

#[test]
fn external_inputs_follow_the_circuit_layout() {
    let prev = pad_addressbook(&book(3), &attested(1000, 2));
    let next = pad_addressbook(&book(2), &attested(1000, 2));
    let sig = SchnorrSignature { verifier_challenge: sc(11), prover_response: sc(12) };
    let bits = bits128(|i| i == 1);
    let inputs = WRAPS::prepare_external_inputs(&sig, &prev, &next, &fe(13), &fe(14), &bits).unwrap();
    assert_eq!(inputs.len(), MAX_EXT_INPUTS);
    assert_eq!(MAX_EXT_INPUTS, 644);
    for i in 0..MAX_AB_SIZE {
        assert!(inputs[4 * i].equals(&prev[i].attested.public_key.x()));
        assert!(inputs[4 * i + 1].equals(&prev[i].attested.public_key.y()));
        assert!(inputs[4 * i + 2].equals(&prev[i].weight));
        assert!(inputs[4 * i + 3].equals(&prev[i].node_id));
        assert_eq!(inputs[4 * MAX_AB_SIZE + i].to_bytes_le(), fe_bytes(if i == 1 { 1 } else { 0 }));
    }
    assert_eq!(inputs[640].to_bytes_le(), fe_bytes(11));
    assert_eq!(inputs[641].to_bytes_le(), fe_bytes(12));
    assert_eq!(inputs[642].to_bytes_le(), fe_bytes(13));
    assert_eq!(inputs[643].to_bytes_le(), fe_bytes(14));
    let r = WRAPS::prepare_external_inputs(&sig, &book(3), &next, &fe(13), &fe(14), &bits);
    assert_eq!(invalid_message(r), "prepare_external_inputs expected padded AddressBooks");
}

#[test]
fn rotation_addressbooks_checks_both_books() {
    let dummy = attested(1000, 2);
    let prev = book(3);
    let next = book(4);
    let (p, n) = WRAPS::rotation_addressbooks(&prev, &next, &sentinel(), &dummy).unwrap();
    assert_eq!((p.len(), n.len()), (MAX_AB_SIZE, MAX_AB_SIZE));
    let mut bad_prev = prev.clone();
    bad_prev[0].attested.pok.response = sc(1);
    let mut bad_next = next.clone();
    bad_next[3].attested.pok.response = sc(1);
    let r = WRAPS::rotation_addressbooks(&bad_prev, &bad_next, &sentinel(), &dummy);
    assert_eq!(invalid_message(r), "Invalid previous AddressBook");
    let r = WRAPS::rotation_addressbooks(&prev, &bad_next, &sentinel(), &dummy);
    assert_eq!(invalid_message(r), "Invalid next AddressBook");
    let big: Vec<AddressBookEntry> = (0..MAX_AB_SIZE + 1).map(|_| prev[0]).collect();
    assert!(matches!(
        WRAPS::rotation_addressbooks(&prev, &big, &sentinel(), &dummy),
        Err(WRAPSError::AddressBookSizeExceeded)
    ));
}

#[test]
fn genesis_step_needs_matching_hashes() {
    assert!(WRAPS::check_genesis_step(&fe(1), &fe(1), &fe(1)).is_ok());
    assert_eq!(
        invalid_message(WRAPS::check_genesis_step(&fe(2), &fe(1), &fe(1))),
        "Assuming genesis as there is no previous proof; but genesis AddressBook hash does not match the provided previous AddressBook"
    );
    assert_eq!(
        invalid_message(WRAPS::check_genesis_step(&fe(1), &fe(1), &fe(3))),
        "Genesis proof requires previous and next AddressBooks to be identical"
    );
}

#[test]
fn compressed_proof_verdict_checks_states() {
    let z0 = vec![fe(10), fe(20)];
    let zi = vec![fe(30), fe(40)];
    assert!(WRAPS::compressed_proof_verdict(&z0, &zi, &fe(10), &fe(40), Ok(true)).unwrap());
    assert!(!WRAPS::compressed_proof_verdict(&z0, &zi, &fe(10), &fe(40), Ok(false)).unwrap());
    assert!(!WRAPS::compressed_proof_verdict(&z0, &zi, &fe(11), &fe(40), Ok(true)).unwrap());
    assert!(!WRAPS::compressed_proof_verdict(&z0, &zi, &fe(10), &fe(30), Ok(true)).unwrap());
    assert!(matches!(
        WRAPS::compressed_proof_verdict(&z0, &zi, &fe(10), &fe(40), Err(WRAPSError::CryptographyError)),
        Err(WRAPSError::CryptographyError)
    ));
    // malformed states are refused
    assert!(matches!(
        WRAPS::compressed_proof_verdict(&z0, &vec![fe(30)], &fe(10), &fe(40), Ok(true)),
        Err(WRAPSError::CryptographyError)
    ));
    assert!(matches!(
        WRAPS::compressed_proof_verdict(&Vec::new(), &zi, &fe(10), &fe(40), Ok(true)),
        Err(WRAPSError::CryptographyError)
    ));
}

#[test]
fn verification_key_is_cut_into_field_chunks() {
    let vk: Vec<u8> = (0..1480u32).map(|i| (i % 251) as u8).collect();
    let elements = hints_vk_hash_input(&vk);
    assert_eq!(elements.len(), 47);
    for (j, e) in elements.iter().enumerate() {
        let end = if 32 * j + 32 < vk.len() { 32 * j + 32 } else { vk.len() };
        let expected = ark_bn254::Fr::from_le_bytes_mod_order(&vk[32 * j..end]);
        assert_eq!(e.to_bytes_le().to_vec(), expected.into_bigint().to_bytes_le());
    }
    assert!(hints_vk_hash_input(&[]).is_empty());
    assert_eq!(hints_vk_hash_input(&[1u8; 32]).len(), 1);
}

#[test]
fn circuit_state_has_two_elements() {
    let c = TSSFCircuit::<MAX_AB_SIZE>::new().unwrap();
    assert_eq!(c.state_len(), 2);
}

#[test]
fn error_messages() {
    assert_eq!(WRAPSError::InvalidInput("x".to_string()).message(), "Invalid input: x");
    assert_eq!(WRAPSError::CryptographyError.message(), "CryptographyError error");
    assert_eq!(WRAPSError::AddressBookSizeExceeded.message(), "Address book size exceeded maximum allowed");
    assert_eq!(
        WRAPSError::BinaryArtifactMissing.message(),
        "TSS_LIB_WRAPS_ARTIFACTS_PATH is undefined or the binary artifacts are missing"
    );
}

#[test]
fn everyone_signing_carries_the_total_weight() {
    let ab = book(5);
    let all = [true; 5];
    assert!(participating_weight(&ab, &all).equals(&addressbook_total_weight(&ab)));
    let keys = signing_participants(&ab, &all);
    assert_eq!(keys.len(), 5);
    for i in 0..5 {
        assert!(keys[i].equals(&ab[i].attested.public_key));
    }
    assert!(signing_participants(&ab, &[false; 5]).is_empty());
}

#[test]
fn rotation_messages_differ_for_different_hashes() {
    let a = WRAPS::rotation_message(&fe(1), &fe(2));
    let b = WRAPS::rotation_message(&fe(1), &fe(3));
    let c = WRAPS::rotation_message(&fe(4), &fe(2));
    let d = WRAPS::rotation_message(&fe(1), &fe(2));
    assert_ne!(a, b);
    assert_ne!(a, c);
    assert_eq!(a, d);
}

#[test]
fn step_inputs_regather_the_hash_preimage() {
    let dummy = attested(1000, 2);
    let prev = pad_addressbook(&book(3), &dummy);
    let sig = SchnorrSignature { verifier_challenge: sc(1), prover_response: sc(2) };
    let inputs = WRAPS::prepare_external_inputs(&sig, &prev, &prev, &fe(3), &fe(4), &bits128(|_| true)).unwrap();
    let preimage = addressbook_hash_input(&prev);
    for column in 0..4 {
        for i in 0..MAX_AB_SIZE {
            assert!(inputs[4 * i + column].equals(&preimage[MAX_AB_SIZE * column + i]));
        }
    }
}

#[test]
fn attested_keypair_verifies() {
    let seed = [5u8; 32];
    let a = WRAPS::attested_keypair(&sc(31337), seed).unwrap();
    assert!(a.public_key.equals(&public_key(31337)));
    let (_s1, s2) = keygen_seeds(seed);
    let pok = generate_proof_of_knowledge(&sc(31337), s2).unwrap();
    assert!(a.pok.commitment.equals(&pok.commitment));
    assert!(verify_proof_of_knowledge(&a.pok, &a.public_key, &sentinel()).unwrap());
}

#[test]
fn trailing_zero_in_partial_chunk_keeps_hash_input() {
    let a = hints_vk_hash_input(&[1u8]);
    let b = hints_vk_hash_input(&[1u8, 0u8]);
    assert_eq!(a.len(), b.len());
    assert!(a[0].equals(&b[0]));
    let c = hints_vk_hash_input(&[1u8, 2u8]);
    assert!(!a[0].equals(&c[0]));
}

#[test]
fn padding_entry_keeps_hash_preimage() {
    let dummy = attested(1000, 2);
    let ab = book(2);
    let mut longer = ab.clone();
    longer.push(AddressBookEntry { attested: dummy, weight: fe(0), node_id: FieldElement::from_le_bytes_mod_order(&modulus_minus_one_bytes()) });
    let a = WRAPS::addressbook_hash_preimage(&ab, &sentinel(), &dummy).unwrap();
    let b = WRAPS::addressbook_hash_preimage(&longer, &sentinel(), &dummy).unwrap();
    assert_eq!(a.len(), b.len());
    for k in 0..a.len() {
        assert!(a[k].equals(&b[k]));
    }
}

#[test]
fn unverified_multisignature_refuses_the_step() {
    assert!(WRAPS::check_multisignature_verdict(true).is_ok());
    assert_eq!(
        invalid_message(WRAPS::check_multisignature_verdict(false)),
        "Schnorr multisignature verification failed"
    );
}

#[test]
fn padded_book_hashes_like_the_book() {
    let dummy = attested(1000, 2);
    let ab = book(3);
    let padded = pad_addressbook(&ab, &dummy);
    let a = WRAPS::addressbook_hash_preimage(&ab, &sentinel(), &dummy).unwrap();
    let b = WRAPS::addressbook_hash_preimage(&padded, &sentinel(), &dummy).unwrap();
    assert_eq!(a.len(), b.len());
    for k in 0..a.len() {
        assert!(a[k].equals(&b[k]));
    }
}
