//! The WRAPS operations: the checks of the threshold signing protocol, the
//! acceptance of a multi-signature by weight, the messages and inputs of an
//! address-book rotation step, and the verdict on a compressed proof.

use vstd::prelude::*;

use crate::addressbook::{
    addressbook_hash_input, addressbook_total_weight, addressbook_verdict, aggregate_key,
    aggregate_public_key, has_signing_majority, hash_input_at, is_padding_of, lemma_padded_preimage_columns, pad_addressbook, padded_hash_input_at,
    participating_weight, point_views, signers, signing_participants, verify_addressbook,
    AddressBookEntry, MAX_AB_SIZE,
};
use crate::curve::{base, generator, identity, jubjub_scalar_mul, neutral, point_mul, Point};
use crate::error::WRAPSError;
use crate::field::{
    fr_add, fr_eq, fr_from_bool, fr_from_le_bytes, fr_gt, fr_modulus, fr_to_bytes_le, le_nat, lemma_le_nat_injective,
    scalar_from_u64, scalar_to_bytes_le, FieldElement, JubJubScalar,
};
use crate::keys::{derived_seed, keygen_seeds, ENTROPY_SIZE};
use crate::pok::{generate_proof_of_knowledge, is_honest_proof, seeded_scalar, AttestedPublicKey, SchnorrPoK};

verus! {

/// Phases of the signing protocol: three rounds followed by aggregation.
#[derive(Clone, Copy, Debug)]
pub enum SigningProtocolPhase {
    R1,
    R2,
    R3,
    Aggregate,
}

impl SigningProtocolPhase {
    /// The number of the phase: 1, 2 and 3 for the rounds, 4 for aggregation.
    pub fn code(&self) -> (r: u8)
        ensures
            r == match *self {
                SigningProtocolPhase::R1 => 1u8,
                SigningProtocolPhase::R2 => 2u8,
                SigningProtocolPhase::R3 => 3u8,
                SigningProtocolPhase::Aggregate => 4u8,
            },
    {
        match self {
            SigningProtocolPhase::R1 => 1,
            SigningProtocolPhase::R2 => 2,
            SigningProtocolPhase::R3 => 3,
            SigningProtocolPhase::Aggregate => 4,
        }
    }
}

/// A Schnorr signature: the verifier's challenge and the prover's response.
#[derive(Clone, Copy, Debug)]
pub struct SchnorrSignature {
    pub verifier_challenge: JubJubScalar,
    pub prover_response: JubJubScalar,
}

/// A threshold signature: which address-book members signed, and the
/// aggregated signature.
pub struct SchnorrMultiSignature {
    pub bitvector: [bool; MAX_AB_SIZE],
    pub signature: SchnorrSignature,
}

/// What a phase of the signing protocol produces: a serialised round message,
/// or the final multi-signature.
pub enum SigningProtocolObject {
    ProtocolMessage(Vec<u8>),
    ProtocolOutput(SchnorrMultiSignature),
}

/// What a phase of the signing protocol hands to its cryptographic round,
/// once the request has been checked.
pub enum SigningRound {
    R1 { entropy: [u8; ENTROPY_SIZE] },
    R2 { entropy: [u8; ENTROPY_SIZE] },
    R3 { entropy: [u8; ENTROPY_SIZE], signing_key: JubJubScalar, participant_pubkeys: Vec<Point> },
    Aggregate { participant_pubkeys: Vec<Point>, padded_bitvector: [bool; MAX_AB_SIZE] },
}

/// Whether a result is the invalid-input error with the given message.
pub open spec fn is_invalid_input<T>(r: Result<T, WRAPSError>, msg: Seq<char>) -> bool {
    r matches Err(WRAPSError::InvalidInput(m)) && m@ == msg
}

/// The message of the error that a signing request is refused with, or `None`
/// when it is accepted. `n` is the number of participating signers.
pub open spec fn signing_request_refusal(
    phase: SigningProtocolPhase,
    has_entropy: bool,
    has_signing_key: bool,
    bits_len: nat,
    n: nat,
    len1: nat,
    len2: nat,
    len3: nat,
) -> Option<Seq<char>> {
    if bits_len > MAX_AB_SIZE {
        Some("Bitvector exceeds maximum supported address book size"@)
    } else {
        match phase {
            SigningProtocolPhase::R1 => if len1 != 0 || len2 != 0 || len3 != 0 {
                Some("R1 expects empty round1/round2/round3 message vectors"@)
            } else if !has_entropy {
                Some("R1 requires protocol_instance_entropy"@)
            } else {
                None
            },
            SigningProtocolPhase::R2 => if len1 != n {
                Some("R2 requires one round1 message per participating signer"@)
            } else if len2 != 0 || len3 != 0 {
                Some("R2 expects empty round2/round3 message vectors"@)
            } else if !has_entropy {
                Some("R2 requires protocol_instance_entropy"@)
            } else {
                None
            },
            SigningProtocolPhase::R3 => if len1 != n || len2 != n {
                Some("R3 requires round1 and round2 message vectors to match participating signer count"@)
            } else if len3 != 0 {
                Some("R3 expects an empty round3 message vector"@)
            } else if !has_entropy {
                Some("R3 requires protocol_instance_entropy"@)
            } else if !has_signing_key {
                Some("R3 requires a signing key"@)
            } else {
                None
            },
            SigningProtocolPhase::Aggregate => if len1 != n || len2 != n || len3 != n {
                Some("Aggregate requires round1/round2/round3 message vectors to match participating signer count"@)
            } else if has_entropy {
                Some("Aggregate must not provide protocol_instance_entropy"@)
            } else {
                None
            },
        }
    }
}

/// The bitvector padded with `false` up to `MAX_AB_SIZE` entries.
pub open spec fn is_padded_bitvector(padded: Seq<bool>, bits: Seq<bool>) -> bool {
    &&& padded.len() == MAX_AB_SIZE
    &&& forall|i: int| 0 <= i < MAX_AB_SIZE ==> padded[i] == (i < bits.len() && bits[i])
}

/// The checked round that an accepted signing request hands on.
pub open spec fn is_signing_round(
    round: SigningRound,
    phase: SigningProtocolPhase,
    entropy: Option<[u8; ENTROPY_SIZE]>,
    signing_key: Option<&JubJubScalar>,
    ab: Seq<AddressBookEntry>,
    bits: Seq<bool>,
) -> bool {
    match phase {
        SigningProtocolPhase::R1 => round matches SigningRound::R1 { entropy: e } && entropy == Some(e),
        SigningProtocolPhase::R2 => round matches SigningRound::R2 { entropy: e } && entropy == Some(e),
        SigningProtocolPhase::R3 => round matches SigningRound::R3 { entropy: e, signing_key: k, participant_pubkeys: p }
            && entropy == Some(e) && signing_key == Some(&k) && point_views(p@) == signers(ab, bits),
        SigningProtocolPhase::Aggregate => round matches SigningRound::Aggregate { participant_pubkeys: p, padded_bitvector: b }
            && point_views(p@) == signers(ab, bits) && is_padded_bitvector(b@, bits),
    }
}

/// The step inputs of the rotation circuit. Entry `i` of the previous address
/// book takes positions `4i` (x-coordinate of its key), `4i + 1`
/// (y-coordinate), `4i + 2` (weight) and `4i + 3` (node identifier).
pub open spec fn entry_input_index(i: int, field: int) -> int {
    4 * i + field
}

/// Position of the `i`-th participation bit.
pub open spec fn bit_input_index(i: int) -> int {
    4 * MAX_AB_SIZE + i
}

/// Positions of the signature's challenge and response, the next address
/// book's hash and the next verification key's hash.
pub open spec fn challenge_input_index() -> int {
    5 * MAX_AB_SIZE
}

pub open spec fn response_input_index() -> int {
    5 * MAX_AB_SIZE + 1
}

pub open spec fn next_addressbook_hash_index() -> int {
    5 * MAX_AB_SIZE + 2
}

pub open spec fn hints_vk_hash_index() -> int {
    5 * MAX_AB_SIZE + 3
}

/// Whether `inputs` are the step inputs for the previous address book
/// `prev_ab`, the participation bits, the aggregated signature and the two
/// hashes, at the positions the step circuit reads them from.
pub open spec fn is_step_input_layout(
    inputs: Seq<FieldElement>,
    prev_ab: Seq<AddressBookEntry>,
    bits: Seq<bool>,
    signature: SchnorrSignature,
    next_ab_hash: nat,
    hints_vk_hash: nat,
) -> bool {
    &&& inputs.len() == MAX_EXT_INPUTS
    &&& forall|i: int| #![trigger prev_ab[i]] 0 <= i < MAX_AB_SIZE ==> {
        &&& inputs[entry_input_index(i, 0)]@ == prev_ab[i].attested.public_key@.0
        &&& inputs[entry_input_index(i, 1)]@ == prev_ab[i].attested.public_key@.1
        &&& inputs[entry_input_index(i, 2)]@ == prev_ab[i].weight@
        &&& inputs[entry_input_index(i, 3)]@ == prev_ab[i].node_id@
    }
    &&& forall|i: int| 0 <= i < MAX_AB_SIZE ==> #[trigger] inputs[bit_input_index(i)]@ == (if bits[i] { 1nat } else { 0nat })
    &&& inputs[challenge_input_index()]@ == signature.verifier_challenge@ % fr_modulus()
    &&& inputs[response_input_index()]@ == signature.prover_response@ % fr_modulus()
    &&& inputs[next_addressbook_hash_index()]@ == next_ab_hash
    &&& inputs[hints_vk_hash_index()]@ == hints_vk_hash
}

/// Number of step inputs of the rotation circuit.
pub const MAX_EXT_INPUTS: usize = 5 * MAX_AB_SIZE + 4;

/// The WRAPS operations.
pub struct WRAPS {}

/// The bitvector padded with `false` up to `MAX_AB_SIZE` entries.
fn pad_bitvector(bits: &[bool]) -> (r: [bool; MAX_AB_SIZE])
    requires
        bits@.len() <= MAX_AB_SIZE,
    ensures
        is_padded_bitvector(r@, bits@),
{
    let mut padded = [false; MAX_AB_SIZE];
    for i in 0..bits.len()
        invariant
            bits@.len() <= MAX_AB_SIZE,
            forall|j: int| 0 <= j < MAX_AB_SIZE ==> padded@[j] == (j < i && bits@[j]),
    {
        padded[i] = bits[i];
    }
    padded
}

impl WRAPS {
    /// Checks a request for one phase of the threshold signing protocol and
    /// hands on what the phase's cryptographic round needs.
    ///
    /// The participating signers are the address-book members whose bit is
    /// set. The bitvector may not be longer than `MAX_AB_SIZE`. R1 takes no
    /// earlier messages and needs the entropy; R2 takes one round-1 message per
    /// signer and needs the entropy; R3 takes one round-1 and one round-2
    /// message per signer and needs the entropy and the signing key; the
    /// aggregation takes one message of each round per signer and no entropy.
    pub fn signing_protocol_round(
        phase: SigningProtocolPhase,
        protocol_instance_entropy: Option<[u8; ENTROPY_SIZE]>,
        signing_key: Option<&JubJubScalar>,
        address_book: &Vec<AddressBookEntry>,
        bitvector: &[bool],
        round1_messages: &[Vec<u8>],
        round2_messages: &[Vec<u8>],
        round3_messages: &[Vec<u8>],
    ) -> (r: Result<SigningRound, WRAPSError>)
        ensures
            match signing_request_refusal(
                phase,
                protocol_instance_entropy is Some,
                signing_key is Some,
                bitvector@.len(),
                signers(address_book@, bitvector@).len(),
                round1_messages@.len(),
                round2_messages@.len(),
                round3_messages@.len(),
            ) {
                Some(msg) => is_invalid_input(r, msg),
                None => r matches Ok(round) && is_signing_round(
                    round,
                    phase,
                    protocol_instance_entropy,
                    signing_key,
                    address_book@,
                    bitvector@,
                ),
            },
    {
        let participant_pubkeys = signing_participants(address_book, bitvector);
        proof {
            assert(point_views(participant_pubkeys@).len() == participant_pubkeys@.len());
        }
        if bitvector.len() > MAX_AB_SIZE {
            return Err(WRAPSError::InvalidInput("Bitvector exceeds maximum supported address book size".to_owned()));
        }
        let padded_bitvector = pad_bitvector(bitvector);
        let n = participant_pubkeys.len();
        match phase {
            SigningProtocolPhase::R1 => {
                if round1_messages.len() != 0 || round2_messages.len() != 0 || round3_messages.len() != 0 {
                    return Err(WRAPSError::InvalidInput("R1 expects empty round1/round2/round3 message vectors".to_owned()));
                }
                match protocol_instance_entropy {
                    Some(entropy) => Ok(SigningRound::R1 { entropy }),
                    None => Err(WRAPSError::InvalidInput("R1 requires protocol_instance_entropy".to_owned())),
                }
            },
            SigningProtocolPhase::R2 => {
                if round1_messages.len() != n {
                    return Err(WRAPSError::InvalidInput("R2 requires one round1 message per participating signer".to_owned()));
                }
                if round2_messages.len() != 0 || round3_messages.len() != 0 {
                    return Err(WRAPSError::InvalidInput("R2 expects empty round2/round3 message vectors".to_owned()));
                }
                match protocol_instance_entropy {
                    Some(entropy) => Ok(SigningRound::R2 { entropy }),
                    None => Err(WRAPSError::InvalidInput("R2 requires protocol_instance_entropy".to_owned())),
                }
            },
            SigningProtocolPhase::R3 => {
                if round1_messages.len() != n || round2_messages.len() != n {
                    return Err(WRAPSError::InvalidInput(
                        "R3 requires round1 and round2 message vectors to match participating signer count".to_owned(),
                    ));
                }
                if round3_messages.len() != 0 {
                    return Err(WRAPSError::InvalidInput("R3 expects an empty round3 message vector".to_owned()));
                }
                let entropy = match protocol_instance_entropy {
                    Some(entropy) => entropy,
                    None => return Err(WRAPSError::InvalidInput("R3 requires protocol_instance_entropy".to_owned())),
                };
                match signing_key {
                    Some(key) => Ok(SigningRound::R3 { entropy, signing_key: *key, participant_pubkeys }),
                    None => Err(WRAPSError::InvalidInput("R3 requires a signing key".to_owned())),
                }
            },
            SigningProtocolPhase::Aggregate => {
                if round1_messages.len() != n || round2_messages.len() != n || round3_messages.len() != n {
                    return Err(WRAPSError::InvalidInput(
                        "Aggregate requires round1/round2/round3 message vectors to match participating signer count".to_owned(),
                    ));
                }
                if protocol_instance_entropy.is_some() {
                    return Err(WRAPSError::InvalidInput("Aggregate must not provide protocol_instance_entropy".to_owned()));
                }
                Ok(SigningRound::Aggregate { participant_pubkeys, padded_bitvector })
            },
        }
    }
    /// Decides whether a multi-signature over `address_book` can be accepted
    /// on grounds other than the Schnorr equation, and with which key that
    /// equation is to be checked.
    ///
    /// An error in checking the address book is returned. An address book
    /// with an invalid proof of knowledge, or signers who hold no more than
    /// half of the total weight (twice their weight does not exceed the total,
    /// both computed in the field), gives `None`. Otherwise the result is the sum of
    /// the signers' public keys, the key the aggregated signature must verify
    /// under.
    pub fn signature_verification_key(
        address_book: &Vec<AddressBookEntry>,
        sentinel: &Point,
        multisignature: &SchnorrMultiSignature,
    ) -> (r: Result<Option<Point>, WRAPSError>)
        ensures
            match addressbook_verdict(address_book@, sentinel@) {
                Err(e) => r == Err::<Option<Point>, WRAPSError>(e),
                Ok(false) => r == Ok::<Option<Point>, WRAPSError>(None),
                Ok(true) => if has_signing_majority(address_book@, multisignature.bitvector@) {
                    r matches Ok(Some(key)) && key@ == aggregate_key(signers(address_book@, multisignature.bitvector@))
                } else {
                    r == Ok::<Option<Point>, WRAPSError>(None)
                },
            },
    {
        let is_valid_ab = match verify_addressbook(address_book, sentinel) {
            Ok(b) => b,
            Err(e) => return Err(e),
        };
        if !is_valid_ab {
            return Ok(None);
        }
        let bits = multisignature.bitvector.as_slice();
        let public_keys = signing_participants(address_book, bits);
        let aggregate_pk = aggregate_public_key(&public_keys);
        let aggregate_weight = participating_weight(address_book, bits);
        let total_weight = addressbook_total_weight(address_book);
        if !fr_gt(&fr_add(&aggregate_weight, &aggregate_weight), &total_weight) {
            return Ok(None);
        }
        Ok(Some(aggregate_pk))
    }

    /// The field elements whose Poseidon hash identifies an address book: the
    /// address book is checked, padded to `MAX_AB_SIZE` entries with
    /// `padding_party`, and laid out as `addressbook_hash_input` does.
    ///
    /// An error in checking the address book is returned; an address book with
    /// an invalid proof of knowledge is refused as invalid input.
    pub fn addressbook_hash_preimage(
        ab: &Vec<AddressBookEntry>,
        sentinel: &Point,
        padding_party: &AttestedPublicKey,
    ) -> (r: Result<Vec<FieldElement>, WRAPSError>)
        ensures
            match addressbook_verdict(ab@, sentinel@) {
                Err(e) => r == Err::<Vec<FieldElement>, WRAPSError>(e),
                Ok(false) => is_invalid_input(r, "Invalid AddressBook"@),
                Ok(true) => r matches Ok(input) && input@.len() == 4 * MAX_AB_SIZE
                    && (forall|k: int| 0 <= k < input@.len() ==> #[trigger] input@[k]@ == padded_hash_input_at(ab@, *padding_party, k))
                    && (forall|i: int| #![trigger ab@[i]] 0 <= i < ab@.len() ==> {
                        &&& input@[i]@ == ab@[i].attested.public_key@.0
                        &&& input@[MAX_AB_SIZE + i]@ == ab@[i].attested.public_key@.1
                        &&& input@[2 * MAX_AB_SIZE + i]@ == ab@[i].weight@
                        &&& input@[3 * MAX_AB_SIZE + i]@ == ab@[i].node_id@
                    })
                    && (forall|i: int| ab@.len() <= i < MAX_AB_SIZE ==> {
                        &&& #[trigger] input@[i]@ == padding_party.public_key@.0
                        &&& input@[MAX_AB_SIZE + i]@ == padding_party.public_key@.1
                        &&& input@[2 * MAX_AB_SIZE + i]@ == 0
                        &&& input@[3 * MAX_AB_SIZE + i]@ == fr_modulus() - 1
                    }),
            },
    {
        let ab_valid = match verify_addressbook(ab, sentinel) {
            Ok(b) => b,
            Err(e) => return Err(e),
        };
        if !ab_valid {
            return Err(WRAPSError::InvalidInput("Invalid AddressBook".to_owned()));
        }
        let padded_ab = pad_addressbook(ab, padding_party);
        let input = addressbook_hash_input(&padded_ab);
        proof {
            assert forall|k: int| 0 <= k < input@.len() implies #[trigger] input@[k]@ == padded_hash_input_at(ab@, *padding_party, k) by {
                assert(input@[k]@ == hash_input_at(padded_ab@, k));
            }
            assert forall|i: int| 0 <= i < MAX_AB_SIZE implies {
                &&& #[trigger] input@[i]@ == padded_hash_input_at(ab@, *padding_party, i)
                &&& input@[MAX_AB_SIZE + i]@ == padded_hash_input_at(ab@, *padding_party, MAX_AB_SIZE + i)
                &&& input@[2 * MAX_AB_SIZE + i]@ == padded_hash_input_at(ab@, *padding_party, 2 * MAX_AB_SIZE + i)
                &&& input@[3 * MAX_AB_SIZE + i]@ == padded_hash_input_at(ab@, *padding_party, 3 * MAX_AB_SIZE + i)
            } by {
                lemma_padded_preimage_columns(ab@, *padding_party, i);
            }
        }
        Ok(input)
    }
    /// The message that signers attest to when rotating to a new address book:
    /// the 32 little-endian bytes of the address book's hash followed by those
    /// of the hash of the next verification key.
    pub fn rotation_message(ab_hash: &FieldElement, hints_vk_hash: &FieldElement) -> (r: Vec<u8>)
        ensures
            r@.len() == 64,
            le_nat(r@.subrange(0, 32)) == ab_hash@,
            le_nat(r@.subrange(32, 64)) == hints_vk_hash@,
    {
        let first = fr_to_bytes_le(ab_hash);
        let second = fr_to_bytes_le(hints_vk_hash);
        let mut msg: Vec<u8> = Vec::new();
        for i in 0..32usize
            invariant
                msg@ == first@.subrange(0, i as int),
        {
            msg.push(first[i]);
        }
        for i in 0..32usize
            invariant
                msg@ == first@ + second@.subrange(0, i as int),
        {
            msg.push(second[i]);
        }
        assert(msg@.subrange(0, 32) =~= first@);
        assert(msg@.subrange(32, 64) =~= second@);
        msg
    }

    /// Formats the data of a rotation step into the inputs of the step
    /// circuit. Both address books must already be padded to `MAX_AB_SIZE`
    /// entries; the previous one is laid out entry by entry, followed by the
    /// participation bits, the signature's challenge and response (as elements
    /// of the BN254 scalar field), the next address book's hash and the hash of
    /// the next verification key.
    pub fn prepare_external_inputs(
        aggregate_signature: &SchnorrSignature,
        prev_ab: &Vec<AddressBookEntry>,
        next_ab: &Vec<AddressBookEntry>,
        next_ab_hash: &FieldElement,
        next_hints_vk_hash: &FieldElement,
        bitvector: &[bool; MAX_AB_SIZE],
    ) -> (r: Result<Vec<FieldElement>, WRAPSError>)
        ensures
            prev_ab@.len() != MAX_AB_SIZE || next_ab@.len() != MAX_AB_SIZE ==> is_invalid_input(
                r,
                "prepare_external_inputs expected padded AddressBooks"@,
            ),
            prev_ab@.len() == MAX_AB_SIZE && next_ab@.len() == MAX_AB_SIZE ==> (r matches Ok(inputs) && is_step_input_layout(
                inputs@,
                prev_ab@,
                bitvector@,
                *aggregate_signature,
                next_ab_hash@,
                next_hints_vk_hash@,
            )),
    {
        if prev_ab.len() != MAX_AB_SIZE || next_ab.len() != MAX_AB_SIZE {
            return Err(WRAPSError::InvalidInput("prepare_external_inputs expected padded AddressBooks".to_owned()));
        }
        let mut inputs: Vec<FieldElement> = Vec::new();
        for i in 0..MAX_AB_SIZE
            invariant
                prev_ab@.len() == MAX_AB_SIZE,
                inputs@.len() == 4 * i,
                forall|j: int| #![trigger prev_ab@[j]] 0 <= j < i ==> {
                    &&& inputs@[entry_input_index(j, 0)]@ == prev_ab@[j].attested.public_key@.0
                    &&& inputs@[entry_input_index(j, 1)]@ == prev_ab@[j].attested.public_key@.1
                    &&& inputs@[entry_input_index(j, 2)]@ == prev_ab@[j].weight@
                    &&& inputs@[entry_input_index(j, 3)]@ == prev_ab@[j].node_id@
                },
        {
            let entry = &prev_ab[i];
            inputs.push(entry.attested.public_key.x());
            inputs.push(entry.attested.public_key.y());
            inputs.push(entry.weight);
            inputs.push(entry.node_id);
            assert(prev_ab@[i as int] == *entry);
        }
        for i in 0..MAX_AB_SIZE
            invariant
                prev_ab@.len() == MAX_AB_SIZE,
                inputs@.len() == 4 * MAX_AB_SIZE + i,
                forall|j: int| #![trigger prev_ab@[j]] 0 <= j < MAX_AB_SIZE ==> {
                    &&& inputs@[entry_input_index(j, 0)]@ == prev_ab@[j].attested.public_key@.0
                    &&& inputs@[entry_input_index(j, 1)]@ == prev_ab@[j].attested.public_key@.1
                    &&& inputs@[entry_input_index(j, 2)]@ == prev_ab@[j].weight@
                    &&& inputs@[entry_input_index(j, 3)]@ == prev_ab@[j].node_id@
                },
                forall|j: int| 0 <= j < i ==> #[trigger] inputs@[bit_input_index(j)]@ == (if bitvector@[j] { 1nat } else { 0nat }),
        {
            inputs.push(fr_from_bool(bitvector[i]));
        }
        let challenge_bytes = scalar_to_bytes_le(&aggregate_signature.verifier_challenge);
        inputs.push(fr_from_le_bytes(&challenge_bytes));
        let response_bytes = scalar_to_bytes_le(&aggregate_signature.prover_response);
        inputs.push(fr_from_le_bytes(&response_bytes));
        inputs.push(*next_ab_hash);
        inputs.push(*next_hints_vk_hash);
        Ok(inputs)
    }
    /// The checks that open a rotation step: both address books are checked
    /// (the previous one first), an invalid one is refused as invalid input
    /// (the previous one first), and both are padded to `MAX_AB_SIZE` entries
    /// with `padding_party`.
    pub fn rotation_addressbooks(
        prev_ab: &Vec<AddressBookEntry>,
        next_ab: &Vec<AddressBookEntry>,
        sentinel: &Point,
        padding_party: &AttestedPublicKey,
    ) -> (r: Result<(Vec<AddressBookEntry>, Vec<AddressBookEntry>), WRAPSError>)
        ensures
            match (addressbook_verdict(prev_ab@, sentinel@), addressbook_verdict(next_ab@, sentinel@)) {
                (Err(e), _) => r == Err::<(Vec<AddressBookEntry>, Vec<AddressBookEntry>), WRAPSError>(e),
                (Ok(_), Err(e)) => r == Err::<(Vec<AddressBookEntry>, Vec<AddressBookEntry>), WRAPSError>(e),
                (Ok(false), Ok(_)) => is_invalid_input(r, "Invalid previous AddressBook"@),
                (Ok(true), Ok(false)) => is_invalid_input(r, "Invalid next AddressBook"@),
                (Ok(true), Ok(true)) => r matches Ok((p, n)) && is_padding_of(p@, prev_ab@, *padding_party)
                    && is_padding_of(n@, next_ab@, *padding_party),
            },
    {
        let prev_ab_valid = match verify_addressbook(prev_ab, sentinel) {
            Ok(b) => b,
            Err(e) => return Err(e),
        };
        let next_ab_valid = match verify_addressbook(next_ab, sentinel) {
            Ok(b) => b,
            Err(e) => return Err(e),
        };
        if !prev_ab_valid {
            return Err(WRAPSError::InvalidInput("Invalid previous AddressBook".to_owned()));
        }
        if !next_ab_valid {
            return Err(WRAPSError::InvalidInput("Invalid next AddressBook".to_owned()));
        }
        Ok((pad_addressbook(prev_ab, padding_party), pad_addressbook(next_ab, padding_party)))
    }

    /// The checks of the first (genesis) step: the hash of the padded previous
    /// address book must be the genesis hash, and the next address book must
    /// hash to the same value.
    pub fn check_genesis_step(
        ab_genesis_hash: &FieldElement,
        padded_prev_ab_hash: &FieldElement,
        padded_next_ab_hash: &FieldElement,
    ) -> (r: Result<(), WRAPSError>)
        ensures
            ab_genesis_hash@ != padded_prev_ab_hash@ ==> is_invalid_input(
                r,
                "Assuming genesis as there is no previous proof; but genesis AddressBook hash does not match the provided previous AddressBook"@,
            ),
            ab_genesis_hash@ == padded_prev_ab_hash@ && padded_next_ab_hash@ != padded_prev_ab_hash@ ==> is_invalid_input(
                r,
                "Genesis proof requires previous and next AddressBooks to be identical"@,
            ),
            ab_genesis_hash@ == padded_prev_ab_hash@ && padded_next_ab_hash@ == padded_prev_ab_hash@ ==> r is Ok,
    {
        if !fr_eq(ab_genesis_hash, padded_prev_ab_hash) {
            return Err(WRAPSError::InvalidInput(
                "Assuming genesis as there is no previous proof; but genesis AddressBook hash does not match the provided previous AddressBook".to_owned(),
            ));
        }
        if !fr_eq(padded_next_ab_hash, padded_prev_ab_hash) {
            return Err(WRAPSError::InvalidInput("Genesis proof requires previous and next AddressBooks to be identical".to_owned()));
        }
        Ok(())
    }

    /// The verdict on a compressed proof: the decider's verdict, and the proof's
    /// current state must carry the expected verification-key hash in its
    /// second element and its initial state the genesis hash in its first.
    /// A proof whose initial state is empty or whose current state has fewer
    /// than two elements is malformed and refused with a cryptography error;
    /// otherwise an error of the decider is returned.
    pub fn compressed_proof_verdict(
        z_0: &Vec<FieldElement>,
        z_i: &Vec<FieldElement>,
        ab_genesis_hash: &FieldElement,
        hints_vk_hash: &FieldElement,
        decider_verdict: Result<bool, WRAPSError>,
    ) -> (r: Result<bool, WRAPSError>)
        ensures
            z_0@.len() < 1 || z_i@.len() < 2 ==> r == Err::<bool, WRAPSError>(WRAPSError::CryptographyError),
            z_0@.len() >= 1 && z_i@.len() >= 2 ==> (match decider_verdict {
                Err(e) => r == Err::<bool, WRAPSError>(e),
                Ok(proof_verified) => r == Ok::<bool, WRAPSError>(
                    proof_verified && z_i@[1]@ == hints_vk_hash@ && z_0@[0]@ == ab_genesis_hash@,
                ),
            }),
    {
        if z_0.len() < 1 || z_i.len() < 2 {
            return Err(WRAPSError::CryptographyError);
        }
        let hints_vk_verified = fr_eq(&z_i[1], hints_vk_hash);
        let ledger_id_verified = fr_eq(&z_0[0], ab_genesis_hash);
        let proof_verified = match decider_verdict {
            Ok(b) => b,
            Err(e) => return Err(e),
        };
        Ok(proof_verified && hints_vk_verified && ledger_id_verified)
    }

    /// The attested public key of a secret key: the key `g * secret_key`, with
    /// the proof of knowledge whose nonce comes from the second seed that
    /// `keygen_seeds` derives from `seed`. The proof always verifies.
    pub fn attested_keypair(secret_key: &JubJubScalar, seed: [u8; ENTROPY_SIZE]) -> (r: Result<AttestedPublicKey, WRAPSError>)
        ensures
            r matches Ok(a) && a.public_key@ == jubjub_scalar_mul(base(), secret_key@)
                && is_honest_proof(a.public_key@, a.pok, secret_key@, seeded_scalar(derived_seed(seed@, 1))),
    {
        let (_seed1, seed2) = keygen_seeds(seed);
        let public_key = point_mul(&generator(), secret_key);
        let pok = match generate_proof_of_knowledge(secret_key, seed2) {
            Ok(pok) => pok,
            Err(e) => return Err(e),
        };
        Ok(AttestedPublicKey { public_key, pok })
    }

    /// The decision of a rotation step on the verdict of the Schnorr
    /// multi-signature over the rotation message: a signature that does not
    /// verify refuses the step as invalid input.
    pub fn check_multisignature_verdict(signature_verified: bool) -> (r: Result<(), WRAPSError>)
        ensures
            signature_verified ==> r is Ok,
            !signature_verified ==> is_invalid_input(r, "Schnorr multisignature verification failed"@),
    {
        if !signature_verified {
            return Err(WRAPSError::InvalidInput("Schnorr multisignature verification failed".to_owned()));
        }
        Ok(())
    }

    /// The attested form of the sentinel key: the key with a proof of knowledge
    /// made of the neutral element and two zero scalars. The proof is never
    /// checked: `verify_proof_of_knowledge` accepts any proof for the sentinel
    /// key, and address-book checks skip it.
    pub fn sentinel_keygen(sentinel: &Point) -> (r: AttestedPublicKey)
        ensures
            r.public_key == *sentinel,
            r.pok.commitment@ == identity(),
            r.pok.challenge@ == 0,
            r.pok.response@ == 0,
    {
        let pok = SchnorrPoK { commitment: neutral(), challenge: scalar_from_u64(0), response: scalar_from_u64(0) };
        AttestedPublicKey { public_key: *sentinel, pok }
    }
}

/// The step circuit of the rotation proof, over address books of `K` entries.
#[derive(Clone, Copy, Debug)]
pub struct TSSFCircuit<const K: usize>;

impl<const K: usize> TSSFCircuit<K> {
    /// Creates the circuit; it has no parameters.
    pub fn new() -> (r: Result<Self, WRAPSError>)
        ensures
            r is Ok,
    {
        Ok(TSSFCircuit)
    }

    /// The folding state holds the current address-book hash and the
    /// verification-key hash.
    pub fn state_len(&self) -> (r: usize)
        ensures
            r == 2,
    {
        2
    }
}

/// The `j`-th 32-byte chunk of a serialised verification key; the last chunk
/// may be shorter.
pub open spec fn hints_vk_chunk(bytes: Seq<u8>, j: int) -> Seq<u8> {
    bytes.subrange(32 * j, if bytes.len() < 32 * j + 32 { bytes.len() as int } else { 32 * j + 32 })
}

/// The field elements whose Poseidon hash identifies a serialised verification
/// key: each 32-byte chunk, read as a little-endian integer and reduced into
/// the field.
pub fn hints_vk_hash_input(vk_bytes: &[u8]) -> (r: Vec<FieldElement>)
    ensures
        r@.len() == (vk_bytes@.len() + 31) / 32,
        forall|j: int| 0 <= j < r@.len() ==> #[trigger] r@[j]@ == le_nat(hints_vk_chunk(vk_bytes@, j)) % fr_modulus(),
{
    let len = vk_bytes.len();
    let mut elements: Vec<FieldElement> = Vec::new();
    let mut i: usize = 0;
    while i < len
        invariant
            len == vk_bytes@.len(),
            i <= len,
            i == 32 * elements@.len() || i == len,
            elements@.len() == (i + 31) / 32,
            forall|j: int| 0 <= j < elements@.len() ==> #[trigger] elements@[j]@ == le_nat(hints_vk_chunk(vk_bytes@, j)) % fr_modulus(),
        decreases len - i,
    {
        let start = i;
        let end = if len - i < 32 { len } else { i + 32 };
        let mut chunk: Vec<u8> = Vec::new();
        for k in start..end
            invariant
                start <= end <= len,
                len == vk_bytes@.len(),
                chunk@ == vk_bytes@.subrange(start as int, k as int),
        {
            chunk.push(vk_bytes[k]);
        }
        assert(chunk@ == hints_vk_chunk(vk_bytes@, elements@.len() as int));
        elements.push(fr_from_le_bytes(chunk.as_slice()));
        i = end;
    }
    elements
}

/// The step inputs occupy distinct positions below `MAX_EXT_INPUTS`, in the
/// order the step circuit reads them: the entries of the previous address
/// book, then the participation bits, then the challenge, the response, the
/// next address book's hash and the verification key's hash.
pub proof fn lemma_step_input_layout(i: int, field: int, j: int)
    requires
        0 <= i < MAX_AB_SIZE,
        0 <= field < 4,
        0 <= j < MAX_AB_SIZE,
    ensures
        0 <= entry_input_index(i, field) < bit_input_index(0),
        bit_input_index(0) <= bit_input_index(j) < challenge_input_index(),
        challenge_input_index() < response_input_index() < next_addressbook_hash_index() < hints_vk_hash_index(),
        hints_vk_hash_index() == MAX_EXT_INPUTS - 1,
        forall|i2: int, field2: int|
            0 <= i2 < MAX_AB_SIZE && 0 <= field2 < 4 && entry_input_index(i2, field2) == entry_input_index(i, field)
                ==> i2 == i && field2 == field,
{
}

/// Rotation messages are equal exactly when the address-book hashes and the
/// verification-key hashes they were made from are equal.
pub proof fn lemma_rotation_message_binds_hashes(
    message: Seq<u8>,
    ab_hash: nat,
    hints_vk_hash: nat,
    other_message: Seq<u8>,
    other_ab_hash: nat,
    other_hints_vk_hash: nat,
)
    requires
        message.len() == 64,
        le_nat(message.subrange(0, 32)) == ab_hash,
        le_nat(message.subrange(32, 64)) == hints_vk_hash,
        other_message.len() == 64,
        le_nat(other_message.subrange(0, 32)) == other_ab_hash,
        le_nat(other_message.subrange(32, 64)) == other_hints_vk_hash,
    ensures
        message == other_message <==> (ab_hash == other_ab_hash && hints_vk_hash == other_hints_vk_hash),
{
    if ab_hash == other_ab_hash && hints_vk_hash == other_hints_vk_hash {
        lemma_le_nat_injective(message.subrange(0, 32), other_message.subrange(0, 32));
        lemma_le_nat_injective(message.subrange(32, 64), other_message.subrange(32, 64));
        assert(message =~= message.subrange(0, 32) + message.subrange(32, 64));
        assert(other_message =~= other_message.subrange(0, 32) + other_message.subrange(32, 64));
    }
}

/// The step circuit recomputes the previous address book's hash by gathering
/// the step inputs column by column (all x-coordinates, all y-coordinates, all
/// weights, all node identifiers); what it gathers is exactly the hash preimage
/// that `addressbook_hash_input` lays out for that address book.
pub proof fn lemma_step_inputs_regather_hash_preimage(
    inputs: Seq<FieldElement>,
    prev_ab: Seq<AddressBookEntry>,
    bits: Seq<bool>,
    signature: SchnorrSignature,
    next_ab_hash: nat,
    hints_vk_hash: nat,
    column: int,
    i: int,
)
    requires
        prev_ab.len() == MAX_AB_SIZE,
        is_step_input_layout(inputs, prev_ab, bits, signature, next_ab_hash, hints_vk_hash),
        0 <= column < 4,
        0 <= i < MAX_AB_SIZE,
    ensures
        inputs[entry_input_index(i, column)]@ == hash_input_at(prev_ab, MAX_AB_SIZE * column + i),
{
}

/// Appending a zero byte to a serialised verification key whose last chunk is
/// shorter than 32 bytes leaves the number of chunks and the integer each
/// chunk denotes unchanged, so the hash input is the same.
pub proof fn lemma_hints_vk_trailing_zero(bytes: Seq<u8>)
    requires
        bytes.len() % 32 != 0,
    ensures
        (bytes.push(0u8).len() + 31) / 32 == (bytes.len() + 31) / 32,
        forall|j: int| 0 <= j < (bytes.len() + 31) / 32 ==> #[trigger] le_nat(hints_vk_chunk(bytes.push(0u8), j)) == le_nat(hints_vk_chunk(bytes, j)),
{
    let ext = bytes.push(0u8);
    assert forall|j: int| 0 <= j < (bytes.len() + 31) / 32 implies #[trigger] le_nat(hints_vk_chunk(ext, j)) == le_nat(hints_vk_chunk(bytes, j)) by {
        if 32 * j + 32 <= bytes.len() {
            assert(hints_vk_chunk(ext, j) =~= hints_vk_chunk(bytes, j));
        } else {
            assert(hints_vk_chunk(ext, j) =~= hints_vk_chunk(bytes, j).push(0u8));
            lemma_le_nat_trailing_zero(hints_vk_chunk(bytes, j));
        }
    }
}

/// A trailing zero byte does not change the integer a little-endian byte
/// string denotes.
pub proof fn lemma_le_nat_trailing_zero(s: Seq<u8>)
    ensures
        le_nat(s.push(0u8)) == le_nat(s),
    decreases s.len(),
{
    if s.len() == 0 {
        assert(s.push(0u8).drop_first() =~= Seq::<u8>::empty());
        assert(le_nat(s.push(0u8)) == 0 + 256 * le_nat(Seq::<u8>::empty()));
    } else {
        assert(s.push(0u8).drop_first() =~= s.drop_first().push(0u8));
        assert(s.push(0u8)[0] == s[0]);
        lemma_le_nat_trailing_zero(s.drop_first());
    }
}

/// The rules of a signing request. A bitvector longer than `MAX_AB_SIZE` is
/// refused first. Otherwise a request is accepted exactly when: R1 has no
/// earlier messages and has the entropy; R2 has one round-1 message per
/// signer, no other messages and the entropy; R3 has one round-1 and one
/// round-2 message per signer, no round-3 message, the entropy and the signing
/// key; the aggregation has one message of each round per signer and no
/// entropy. A wrong number of messages from an earlier round is refused with
/// the phase's message-count error, whatever the other inputs are.
pub proof fn lemma_signing_request_rules(
    phase: SigningProtocolPhase,
    has_entropy: bool,
    has_signing_key: bool,
    bits_len: nat,
    n: nat,
    len1: nat,
    len2: nat,
    len3: nat,
)
    ensures
        ({
            let refusal = signing_request_refusal(phase, has_entropy, has_signing_key, bits_len, n, len1, len2, len3);
            &&& bits_len > MAX_AB_SIZE ==> refusal == Some("Bitvector exceeds maximum supported address book size"@)
            &&& bits_len <= MAX_AB_SIZE ==> (refusal is None <==> match phase {
                SigningProtocolPhase::R1 => len1 == 0 && len2 == 0 && len3 == 0 && has_entropy,
                SigningProtocolPhase::R2 => len1 == n && len2 == 0 && len3 == 0 && has_entropy,
                SigningProtocolPhase::R3 => len1 == n && len2 == n && len3 == 0 && has_entropy && has_signing_key,
                SigningProtocolPhase::Aggregate => len1 == n && len2 == n && len3 == n && !has_entropy,
            })
            &&& bits_len <= MAX_AB_SIZE && phase is R1 && (len1 != 0 || len2 != 0 || len3 != 0)
                ==> refusal == Some("R1 expects empty round1/round2/round3 message vectors"@)
            &&& bits_len <= MAX_AB_SIZE && phase is R2 && len1 != n
                ==> refusal == Some("R2 requires one round1 message per participating signer"@)
            &&& bits_len <= MAX_AB_SIZE && phase is R3 && (len1 != n || len2 != n)
                ==> refusal == Some("R3 requires round1 and round2 message vectors to match participating signer count"@)
            &&& bits_len <= MAX_AB_SIZE && phase is Aggregate && (len1 != n || len2 != n || len3 != n)
                ==> refusal == Some("Aggregate requires round1/round2/round3 message vectors to match participating signer count"@)
        }),
{
}

} // verus!
