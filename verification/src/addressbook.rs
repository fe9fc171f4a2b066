//! Address books: the committee's public keys with their proofs of knowledge,
//! weights and node identifiers; their validation, padding, hash preimage and
//! the aggregation of a signing subset.

use vstd::prelude::*;

use crate::curve::{identity, jubjub_add, neutral, point_add, Point};
use crate::error::WRAPSError;
use crate::field::{fr_add, fr_from_i64, fr_from_u64, fr_modulus, FieldElement};
use crate::pok::{attested_verdict, verify_proof_of_knowledge, AttestedPublicKey};

verus! {

/// Address books hold at most this many entries.
pub const MAX_AB_SIZE: usize = 128;

/// One member of an address book.
#[derive(Clone, Copy, Debug)]
pub struct AddressBookEntry {
    pub attested: AttestedPublicKey,
    pub weight: FieldElement,
    pub node_id: FieldElement,
}

/// The verdict on the entries of an address book, first to last: an entry
/// whose key is the sentinel is skipped; the first entry whose proof fails
/// gives `false`.
pub open spec fn entries_verdict(ab: Seq<AddressBookEntry>, sentinel: (nat, nat)) -> Result<bool, WRAPSError>
    decreases ab.len(),
{
    if ab.len() == 0 {
        Ok(true)
    } else if ab[0].attested.public_key@ == sentinel {
        entries_verdict(ab.drop_first(), sentinel)
    } else if !attested_verdict(ab[0].attested) {
        Ok(false)
    } else {
        entries_verdict(ab.drop_first(), sentinel)
    }
}

/// The verdict on an address book: too many entries is an error, else the
/// verdict on its entries.
pub open spec fn addressbook_verdict(ab: Seq<AddressBookEntry>, sentinel: (nat, nat)) -> Result<bool, WRAPSError> {
    if ab.len() > MAX_AB_SIZE {
        Err(WRAPSError::AddressBookSizeExceeded)
    } else {
        entries_verdict(ab, sentinel)
    }
}

/// Checks that each key of the address book has a valid proof of knowledge.
/// Keys equal to `sentinel` are placeholders without a signer; their proof is
/// not checked.
pub fn verify_addressbook(ab: &Vec<AddressBookEntry>, sentinel: &Point) -> (r: Result<bool, WRAPSError>)
    ensures
        r == addressbook_verdict(ab@, sentinel@),
{
    if ab.len() > MAX_AB_SIZE {
        return Err(WRAPSError::AddressBookSizeExceeded);
    }
    let n = ab.len();
    assert(ab@.skip(0) =~= ab@);
    for i in 0..n
        invariant
            n == ab@.len(),
            n <= MAX_AB_SIZE,
            entries_verdict(ab@, sentinel@) == entries_verdict(ab@.skip(i as int), sentinel@),
    {
        assert(ab@.skip(i as int).drop_first() =~= ab@.skip(i + 1));
        assert(ab@.skip(i as int)[0] == ab@[i as int]);
        let entry = &ab[i];
        if !entry.attested.public_key.equals(sentinel) {
            let is_valid = match verify_proof_of_knowledge(&entry.attested.pok, &entry.attested.public_key, sentinel) {
                Ok(b) => b,
                Err(e) => return Err(e),
            };
            if !is_valid {
                return Ok(false);
            }
        }
    }
    assert(ab@.skip(n as int) =~= Seq::<AddressBookEntry>::empty());
    Ok(true)
}

/// Whether `padded` is `ab` followed by entries for `dummy_party`, with weight
/// zero and the largest field element as node identifier, up to `MAX_AB_SIZE`
/// entries.
pub open spec fn is_padding_of(padded: Seq<AddressBookEntry>, ab: Seq<AddressBookEntry>, dummy_party: AttestedPublicKey) -> bool {
    &&& padded.len() == (if ab.len() < MAX_AB_SIZE { MAX_AB_SIZE as nat } else { ab.len() })
    &&& forall|i: int| 0 <= i < ab.len() ==> padded[i] == ab[i]
    &&& forall|i: int| ab.len() <= i < padded.len() ==> {
        &&& padded[i].attested == dummy_party
        &&& padded[i].weight@ == 0
        &&& padded[i].node_id@ == fr_modulus() - 1
    }
}

/// Pads an address book up to `MAX_AB_SIZE` entries with `dummy_party`, each
/// with weight zero and the largest field element as node identifier.
pub fn pad_addressbook(ab: &Vec<AddressBookEntry>, dummy_party: &AttestedPublicKey) -> (r: Vec<AddressBookEntry>)
    ensures
        is_padding_of(r@, ab@, *dummy_party),
{
    let mut padded: Vec<AddressBookEntry> = Vec::new();
    let n = ab.len();
    for i in 0..n
        invariant
            n == ab@.len(),
            padded@ == ab@.subrange(0, i as int),
    {
        padded.push(ab[i]);
    }
    let zero_weight = fr_from_u64(0);
    let dummy_node_id = fr_from_i64(-1);
    while padded.len() < MAX_AB_SIZE
        invariant
            n == ab@.len(),
            n <= padded@.len(),
            padded@.len() <= (if n < MAX_AB_SIZE { MAX_AB_SIZE as nat } else { n as nat }),
            forall|i: int| 0 <= i < n ==> padded@[i] == ab@[i],
            forall|i: int| n <= i < padded@.len() ==> {
                &&& padded@[i].attested == *dummy_party
                &&& padded@[i].weight@ == 0
                &&& padded@[i].node_id@ == fr_modulus() - 1
            },
            zero_weight@ == 0,
            dummy_node_id@ == fr_modulus() - 1,
        decreases MAX_AB_SIZE - padded@.len(),
    {
        padded.push(AddressBookEntry { attested: *dummy_party, weight: zero_weight, node_id: dummy_node_id });
    }
    padded
}

/// Column `col` of the hash preimage for one entry: x-coordinate, y-coordinate,
/// weight, node identifier.
pub open spec fn entry_component(key: (nat, nat), weight: nat, node_id: nat, col: int) -> nat {
    if col == 0 {
        key.0
    } else if col == 1 {
        key.1
    } else if col == 2 {
        weight
    } else {
        node_id
    }
}

/// Column `col` of entry `i` of `ab` padded with `dummy_party`.
pub open spec fn padded_component(ab: Seq<AddressBookEntry>, dummy_party: AttestedPublicKey, i: int, col: int) -> nat {
    if i < ab.len() {
        entry_component(ab[i].attested.public_key@, ab[i].weight@, ab[i].node_id@, col)
    } else {
        entry_component(dummy_party.public_key@, 0, (fr_modulus() - 1) as nat, col)
    }
}

/// The `k`-th element of the hash preimage of `ab` padded with `dummy_party`
/// to `MAX_AB_SIZE` entries.
pub open spec fn padded_hash_input_at(ab: Seq<AddressBookEntry>, dummy_party: AttestedPublicKey, k: int) -> nat {
    let n = MAX_AB_SIZE as int;
    if k < n {
        padded_component(ab, dummy_party, k, 0)
    } else if k < 2 * n {
        padded_component(ab, dummy_party, k - n, 1)
    } else if k < 3 * n {
        padded_component(ab, dummy_party, k - 2 * n, 2)
    } else {
        padded_component(ab, dummy_party, k - 3 * n, 3)
    }
}

/// The `k`-th element of the hash preimage of an address book: all
/// x-coordinates, then all y-coordinates, then all weights, then all node
/// identifiers.
pub open spec fn hash_input_at(ab: Seq<AddressBookEntry>, k: int) -> nat {
    let n = ab.len() as int;
    if k < n {
        ab[k].attested.public_key@.0
    } else if k < 2 * n {
        ab[k - n].attested.public_key@.1
    } else if k < 3 * n {
        ab[k - 2 * n].weight@
    } else {
        ab[k - 3 * n].node_id@
    }
}

/// The field elements that the address-book hash absorbs, in order: the
/// x-coordinates of the keys, their y-coordinates, the weights and the node
/// identifiers.
pub fn addressbook_hash_input(ab: &Vec<AddressBookEntry>) -> (r: Vec<FieldElement>)
    ensures
        r@.len() == 4 * ab@.len(),
        forall|k: int| 0 <= k < r@.len() ==> #[trigger] r@[k]@ == hash_input_at(ab@, k),
        forall|i: int| #![trigger ab@[i]] 0 <= i < ab@.len() ==> {
            &&& r@[i]@ == ab@[i].attested.public_key@.0
            &&& r@[ab@.len() + i]@ == ab@[i].attested.public_key@.1
            &&& r@[2 * ab@.len() + i]@ == ab@[i].weight@
            &&& r@[3 * ab@.len() + i]@ == ab@[i].node_id@
        },
{
    let n = ab.len();
    let mut input: Vec<FieldElement> = Vec::new();
    for i in 0..n
        invariant
            n == ab@.len(),
            input@.len() == i,
            forall|k: int| 0 <= k < input@.len() ==> #[trigger] input@[k]@ == hash_input_at(ab@, k),
    {
        input.push(ab[i].attested.public_key.x());
    }
    for i in 0..n
        invariant
            n == ab@.len(),
            input@.len() == n + i,
            forall|k: int| 0 <= k < input@.len() ==> #[trigger] input@[k]@ == hash_input_at(ab@, k),
    {
        input.push(ab[i].attested.public_key.y());
    }
    for i in 0..n
        invariant
            n == ab@.len(),
            input@.len() == 2 * n + i,
            forall|k: int| 0 <= k < input@.len() ==> #[trigger] input@[k]@ == hash_input_at(ab@, k),
    {
        input.push(ab[i].weight);
    }
    for i in 0..n
        invariant
            n == ab@.len(),
            input@.len() == 3 * n + i,
            forall|k: int| 0 <= k < input@.len() ==> #[trigger] input@[k]@ == hash_input_at(ab@, k),
    {
        input.push(ab[i].node_id);
    }
    input
}

/// The number of entries that a bitvector speaks of: pairs are formed up to the
/// shorter of the two.
pub open spec fn paired_len(ab: Seq<AddressBookEntry>, bits: Seq<bool>) -> int {
    if ab.len() < bits.len() { ab.len() as int } else { bits.len() as int }
}

/// The public keys of the first `n` entries whose bit is set, in order.
pub open spec fn signers_upto(ab: Seq<AddressBookEntry>, bits: Seq<bool>, n: int) -> Seq<(nat, nat)>
    decreases n,
{
    if n <= 0 {
        Seq::empty()
    } else if bits[n - 1] {
        signers_upto(ab, bits, n - 1).push(ab[n - 1].attested.public_key@)
    } else {
        signers_upto(ab, bits, n - 1)
    }
}

/// The public keys of the participating signers, in address-book order.
pub open spec fn signers(ab: Seq<AddressBookEntry>, bits: Seq<bool>) -> Seq<(nat, nat)> {
    signers_upto(ab, bits, paired_len(ab, bits))
}

/// The field sum of the weights of the first `n` entries whose bit is set.
pub open spec fn signer_weight_upto(ab: Seq<AddressBookEntry>, bits: Seq<bool>, n: int) -> nat
    decreases n,
{
    if n <= 0 {
        0
    } else if bits[n - 1] {
        (signer_weight_upto(ab, bits, n - 1) + ab[n - 1].weight@) % fr_modulus()
    } else {
        signer_weight_upto(ab, bits, n - 1)
    }
}

/// The field sum of the weights of the participating signers.
pub open spec fn signer_weight(ab: Seq<AddressBookEntry>, bits: Seq<bool>) -> nat {
    signer_weight_upto(ab, bits, paired_len(ab, bits))
}

/// The field sum of the weights of the first `n` entries.
pub open spec fn total_weight_upto(ab: Seq<AddressBookEntry>, n: int) -> nat
    decreases n,
{
    if n <= 0 {
        0
    } else {
        (total_weight_upto(ab, n - 1) + ab[n - 1].weight@) % fr_modulus()
    }
}

/// The field sum of all weights of an address book.
pub open spec fn total_weight(ab: Seq<AddressBookEntry>) -> nat {
    total_weight_upto(ab, ab.len() as int)
}

/// The group sum of a sequence of points, first to last, starting from the
/// neutral element.
pub open spec fn aggregate_key(keys: Seq<(nat, nat)>) -> (nat, nat)
    decreases keys.len(),
{
    if keys.len() == 0 {
        identity()
    } else {
        jubjub_add(aggregate_key(keys.drop_last()), keys.last())
    }
}

/// The views of a sequence of points.
pub open spec fn point_views(points: Seq<Point>) -> Seq<(nat, nat)> {
    points.map_values(|p: Point| p@)
}

/// The public keys of the entries whose bit is set, pairing entries with bits
/// up to the shorter of the two.
pub fn signing_participants(ab: &Vec<AddressBookEntry>, bitvector: &[bool]) -> (r: Vec<Point>)
    ensures
        point_views(r@) == signers(ab@, bitvector@),
{
    let n = if ab.len() < bitvector.len() { ab.len() } else { bitvector.len() };
    let mut keys: Vec<Point> = Vec::new();
    for i in 0..n
        invariant
            n as int == paired_len(ab@, bitvector@),
            point_views(keys@) == signers_upto(ab@, bitvector@, i as int),
    {
        if bitvector[i] {
            let ghost before = keys@;
            keys.push(ab[i].attested.public_key);
            assert(point_views(keys@) =~= point_views(before).push(ab@[i as int].attested.public_key@));
        }
    }
    keys
}

/// The field sum of the weights of the participating signers.
pub fn participating_weight(ab: &Vec<AddressBookEntry>, bitvector: &[bool]) -> (r: FieldElement)
    ensures
        r@ == signer_weight(ab@, bitvector@),
{
    let n = if ab.len() < bitvector.len() { ab.len() } else { bitvector.len() };
    let mut sum = fr_from_u64(0);
    for i in 0..n
        invariant
            n as int == paired_len(ab@, bitvector@),
            sum@ == signer_weight_upto(ab@, bitvector@, i as int),
    {
        if bitvector[i] {
            sum = fr_add(&sum, &ab[i].weight);
        }
    }
    sum
}

/// The field sum of all weights of the address book.
pub fn addressbook_total_weight(ab: &Vec<AddressBookEntry>) -> (r: FieldElement)
    ensures
        r@ == total_weight(ab@),
{
    let n = ab.len();
    let mut sum = fr_from_u64(0);
    for i in 0..n
        invariant
            n == ab@.len(),
            sum@ == total_weight_upto(ab@, i as int),
    {
        sum = fr_add(&sum, &ab[i].weight);
    }
    sum
}

/// The group sum of the keys, first to last, starting from the neutral element.
pub fn aggregate_public_key(keys: &Vec<Point>) -> (r: Point)
    ensures
        r@ == aggregate_key(point_views(keys@)),
{
    let n = keys.len();
    let mut acc = neutral();
    for i in 0..n
        invariant
            n == keys@.len(),
            acc@ == aggregate_key(point_views(keys@.subrange(0, i as int))),
    {
        assert(point_views(keys@.subrange(0, i + 1)).drop_last() =~= point_views(keys@.subrange(0, i as int)));
        acc = point_add(&acc, &keys[i]);
    }
    assert(keys@.subrange(0, n as int) =~= keys@);
    acc
}

/// Whether the participating signers hold more than half of the weight: twice
/// the participating weight exceeds the total weight, both computed in the
/// field.
pub open spec fn has_signing_majority(ab: Seq<AddressBookEntry>, bits: Seq<bool>) -> bool {
    (signer_weight(ab, bits) + signer_weight(ab, bits)) % fr_modulus() > total_weight(ab)
}

/// Padding an address book that is already padded changes nothing.
pub proof fn lemma_padding_idempotent(
    ab: Seq<AddressBookEntry>,
    dummy_party: AttestedPublicKey,
    once: Seq<AddressBookEntry>,
    twice: Seq<AddressBookEntry>,
)
    requires
        is_padding_of(once, ab, dummy_party),
        is_padding_of(twice, once, dummy_party),
    ensures
        twice == once,
{
    assert(twice =~= once);
}

/// An entry whose key is the sentinel does not change the verdict on the
/// entries of an address book, wherever it stands.
pub proof fn lemma_sentinel_entry_ignored(
    before: Seq<AddressBookEntry>,
    entry: AddressBookEntry,
    after: Seq<AddressBookEntry>,
    sentinel: (nat, nat),
)
    requires
        entry.attested.public_key@ == sentinel,
    ensures
        entries_verdict(before.push(entry) + after, sentinel) == entries_verdict(before + after, sentinel),
    decreases before.len(),
{
    if before.len() == 0 {
        assert((before.push(entry) + after).drop_first() =~= after);
        assert(before + after =~= after);
    } else {
        lemma_sentinel_entry_ignored(before.drop_first(), entry, after, sentinel);
        assert((before.push(entry) + after).drop_first() =~= before.drop_first().push(entry) + after);
        assert((before + after).drop_first() =~= before.drop_first() + after);
        assert((before.push(entry) + after)[0] == before[0]);
        assert((before + after)[0] == before[0]);
    }
}

/// When every member signs, the signers are all members, in order, and their
/// weight is the total weight.
pub proof fn lemma_everyone_signs(ab: Seq<AddressBookEntry>, bits: Seq<bool>)
    requires
        bits.len() >= ab.len(),
        forall|i: int| 0 <= i < ab.len() ==> bits[i],
    ensures
        signers(ab, bits) == ab.map_values(|e: AddressBookEntry| e.attested.public_key@),
        signer_weight(ab, bits) == total_weight(ab),
{
    lemma_everyone_signs_upto(ab, bits, ab.len() as int);
    assert(ab.take(ab.len() as int) =~= ab);
}

proof fn lemma_everyone_signs_upto(ab: Seq<AddressBookEntry>, bits: Seq<bool>, n: int)
    requires
        0 <= n <= ab.len(),
        bits.len() >= ab.len(),
        forall|i: int| 0 <= i < ab.len() ==> bits[i],
    ensures
        signers_upto(ab, bits, n) == ab.take(n).map_values(|e: AddressBookEntry| e.attested.public_key@),
        signer_weight_upto(ab, bits, n) == total_weight_upto(ab, n),
    decreases n,
{
    if n > 0 {
        lemma_everyone_signs_upto(ab, bits, n - 1);
        assert(ab.take(n).map_values(|e: AddressBookEntry| e.attested.public_key@) =~= ab.take(n - 1).map_values(
            |e: AddressBookEntry| e.attested.public_key@,
        ).push(ab[n - 1].attested.public_key@));
    } else {
        assert(ab.take(n).map_values(|e: AddressBookEntry| e.attested.public_key@) =~= Seq::<(nat, nat)>::empty());
    }
}

/// When nobody signs, there are no signers, their weight is zero and their
/// aggregate key is the neutral element.
pub proof fn lemma_nobody_signs(ab: Seq<AddressBookEntry>, bits: Seq<bool>)
    requires
        forall|i: int| 0 <= i < bits.len() ==> !bits[i],
    ensures
        signers(ab, bits) == Seq::<(nat, nat)>::empty(),
        signer_weight(ab, bits) == 0,
        aggregate_key(signers(ab, bits)) == identity(),
{
    lemma_nobody_signs_upto(ab, bits, paired_len(ab, bits));
}

proof fn lemma_nobody_signs_upto(ab: Seq<AddressBookEntry>, bits: Seq<bool>, n: int)
    requires
        n <= bits.len(),
        forall|i: int| 0 <= i < bits.len() ==> !bits[i],
    ensures
        signers_upto(ab, bits, n) == Seq::<(nat, nat)>::empty(),
        signer_weight_upto(ab, bits, n) == 0,
    decreases n,
{
    if n > 0 {
        lemma_nobody_signs_upto(ab, bits, n - 1);
    }
}

/// Appending a padding entry for the padding party to an address book that is
/// shorter than `MAX_AB_SIZE` leaves the padded hash preimage unchanged.
pub proof fn lemma_padding_entry_preserves_preimage(
    ab: Seq<AddressBookEntry>,
    dummy_party: AttestedPublicKey,
    entry: AddressBookEntry,
    k: int,
)
    requires
        ab.len() < MAX_AB_SIZE,
        entry.attested == dummy_party,
        entry.weight@ == 0,
        entry.node_id@ == fr_modulus() - 1,
        0 <= k < 4 * MAX_AB_SIZE,
    ensures
        padded_hash_input_at(ab.push(entry), dummy_party, k) == padded_hash_input_at(ab, dummy_party, k),
{
    assert forall|i: int, col: int| 0 <= i < MAX_AB_SIZE implies #[trigger] padded_component(ab.push(entry), dummy_party, i, col)
        == padded_component(ab, dummy_party, i, col) by {
        if i < ab.len() {
            assert(ab.push(entry)[i] == ab[i]);
        } else if i == ab.len() {
            assert(ab.push(entry)[i] == entry);
        }
    }
}

/// Whether the padding party's proof holds or its key is the sentinel, so that
/// address-book checks accept its entries.
pub open spec fn padding_party_accepted(dummy_party: AttestedPublicKey, sentinel: (nat, nat)) -> bool {
    dummy_party.public_key@ == sentinel || attested_verdict(dummy_party)
}

/// Entries after an accepted prefix decide the verdict on their own.
pub proof fn lemma_entries_verdict_append(a: Seq<AddressBookEntry>, b: Seq<AddressBookEntry>, sentinel: (nat, nat))
    requires
        entries_verdict(a, sentinel) == Ok::<bool, WRAPSError>(true),
    ensures
        entries_verdict(a + b, sentinel) == entries_verdict(b, sentinel),
    decreases a.len(),
{
    if a.len() == 0 {
        assert(a + b =~= b);
    } else {
        assert((a + b).drop_first() =~= a.drop_first() + b);
        assert((a + b)[0] == a[0]);
        lemma_entries_verdict_append(a.drop_first(), b, sentinel);
    }
}

/// Entries of an accepted padding party are all accepted.
proof fn lemma_padding_entries_accepted(entries: Seq<AddressBookEntry>, dummy_party: AttestedPublicKey, sentinel: (nat, nat))
    requires
        padding_party_accepted(dummy_party, sentinel),
        forall|i: int| 0 <= i < entries.len() ==> entries[i].attested == dummy_party,
    ensures
        entries_verdict(entries, sentinel) == Ok::<bool, WRAPSError>(true),
    decreases entries.len(),
{
    if entries.len() > 0 {
        assert(entries[0].attested == dummy_party);
        lemma_padding_entries_accepted(entries.drop_first(), dummy_party, sentinel);
    }
}

/// Appending a padding entry to an accepted address book that is shorter than
/// `MAX_AB_SIZE` keeps it accepted (when the padding party is accepted) and
/// leaves its padded hash preimage unchanged: the address-book hash is the
/// same.
pub proof fn lemma_padding_entry_keeps_hash(
    ab: Seq<AddressBookEntry>,
    sentinel: (nat, nat),
    dummy_party: AttestedPublicKey,
    entry: AddressBookEntry,
)
    requires
        addressbook_verdict(ab, sentinel) == Ok::<bool, WRAPSError>(true),
        ab.len() < MAX_AB_SIZE,
        padding_party_accepted(dummy_party, sentinel),
        entry.attested == dummy_party,
        entry.weight@ == 0,
        entry.node_id@ == fr_modulus() - 1,
    ensures
        addressbook_verdict(ab.push(entry), sentinel) == Ok::<bool, WRAPSError>(true),
        forall|k: int| 0 <= k < 4 * MAX_AB_SIZE ==> #[trigger] padded_hash_input_at(ab.push(entry), dummy_party, k)
            == padded_hash_input_at(ab, dummy_party, k),
{
    lemma_padding_entries_accepted(seq![entry], dummy_party, sentinel);
    lemma_entries_verdict_append(ab, seq![entry], sentinel);
    assert(ab + seq![entry] =~= ab.push(entry));
    assert forall|k: int| 0 <= k < 4 * MAX_AB_SIZE implies #[trigger] padded_hash_input_at(ab.push(entry), dummy_party, k)
        == padded_hash_input_at(ab, dummy_party, k) by {
        lemma_padding_entry_preserves_preimage(ab, dummy_party, entry, k);
    }
}

/// A padded accepted address book is accepted (when the padding party is
/// accepted) and has the same padded hash preimage as the book it was padded
/// from: hashing an address book or its padding gives the same hash.
pub proof fn lemma_padded_book_keeps_hash(
    ab: Seq<AddressBookEntry>,
    sentinel: (nat, nat),
    dummy_party: AttestedPublicKey,
    padded: Seq<AddressBookEntry>,
)
    requires
        addressbook_verdict(ab, sentinel) == Ok::<bool, WRAPSError>(true),
        padding_party_accepted(dummy_party, sentinel),
        is_padding_of(padded, ab, dummy_party),
    ensures
        addressbook_verdict(padded, sentinel) == Ok::<bool, WRAPSError>(true),
        forall|k: int| 0 <= k < 4 * MAX_AB_SIZE ==> #[trigger] padded_hash_input_at(padded, dummy_party, k)
            == padded_hash_input_at(ab, dummy_party, k),
{
    let tail = padded.subrange(ab.len() as int, padded.len() as int);
    assert(padded =~= ab + tail);
    lemma_padding_entries_accepted(tail, dummy_party, sentinel);
    lemma_entries_verdict_append(ab, tail, sentinel);
    assert forall|k: int| 0 <= k < 4 * MAX_AB_SIZE implies #[trigger] padded_hash_input_at(padded, dummy_party, k)
        == padded_hash_input_at(ab, dummy_party, k) by {
        assert forall|i: int, col: int| 0 <= i < MAX_AB_SIZE implies #[trigger] padded_component(padded, dummy_party, i, col)
            == padded_component(ab, dummy_party, i, col) by {
            if i < ab.len() {
                assert(padded[i] == ab[i]);
            } else {
                assert(padded[i].attested == dummy_party);
            }
        }
    }
}

/// The padded hash preimage lists, for each of the `MAX_AB_SIZE` slots, the
/// x-coordinate, y-coordinate, weight and node identifier in four columns: the
/// book's own entries first, then the padding party with weight zero and the
/// largest field element as node identifier.
pub proof fn lemma_padded_preimage_columns(ab: Seq<AddressBookEntry>, dummy_party: AttestedPublicKey, i: int)
    requires
        0 <= i < MAX_AB_SIZE,
    ensures
        i < ab.len() ==> {
            &&& padded_hash_input_at(ab, dummy_party, i) == ab[i].attested.public_key@.0
            &&& padded_hash_input_at(ab, dummy_party, MAX_AB_SIZE + i) == ab[i].attested.public_key@.1
            &&& padded_hash_input_at(ab, dummy_party, 2 * MAX_AB_SIZE + i) == ab[i].weight@
            &&& padded_hash_input_at(ab, dummy_party, 3 * MAX_AB_SIZE + i) == ab[i].node_id@
        },
        i >= ab.len() ==> {
            &&& padded_hash_input_at(ab, dummy_party, i) == dummy_party.public_key@.0
            &&& padded_hash_input_at(ab, dummy_party, MAX_AB_SIZE + i) == dummy_party.public_key@.1
            &&& padded_hash_input_at(ab, dummy_party, 2 * MAX_AB_SIZE + i) == 0
            &&& padded_hash_input_at(ab, dummy_party, 3 * MAX_AB_SIZE + i) == fr_modulus() - 1
        },
{
}

/// The aggregate of no keys is the neutral element, and appending a key to a
/// list adds it, by the group law, to the aggregate of the list.
pub proof fn lemma_aggregate_key_push(keys: Seq<(nat, nat)>, key: (nat, nat))
    ensures
        aggregate_key(Seq::<(nat, nat)>::empty()) == identity(),
        aggregate_key(keys.push(key)) == jubjub_add(aggregate_key(keys), key),
{
    assert(keys.push(key).drop_last() =~= keys);
}

proof fn lemma_total_weight_prefix(ab: Seq<AddressBookEntry>, entry: AddressBookEntry, n: int)
    requires
        0 <= n <= ab.len(),
    ensures
        total_weight_upto(ab.push(entry), n) == total_weight_upto(ab, n),
    decreases n,
{
    if n > 0 {
        lemma_total_weight_prefix(ab, entry, n - 1);
        assert(ab.push(entry)[n - 1] == ab[n - 1]);
    }
}

/// An empty address book has total weight zero, and appending an entry adds
/// its weight, in the field, to the total weight.
pub proof fn lemma_total_weight_push(ab: Seq<AddressBookEntry>, entry: AddressBookEntry)
    ensures
        total_weight(Seq::<AddressBookEntry>::empty()) == 0,
        total_weight(ab.push(entry)) == (total_weight(ab) + entry.weight@) % fr_modulus(),
{
    lemma_total_weight_prefix(ab, entry, ab.len() as int);
    assert(ab.push(entry)[ab.len() as int] == entry);
}

proof fn lemma_signing_prefix(ab: Seq<AddressBookEntry>, bits: Seq<bool>, entry: AddressBookEntry, bit: bool, n: int)
    requires
        0 <= n <= ab.len(),
        n <= bits.len(),
    ensures
        signer_weight_upto(ab.push(entry), bits.push(bit), n) == signer_weight_upto(ab, bits, n),
        signers_upto(ab.push(entry), bits.push(bit), n) == signers_upto(ab, bits, n),
    decreases n,
{
    if n > 0 {
        lemma_signing_prefix(ab, bits, entry, bit, n - 1);
        assert(ab.push(entry)[n - 1] == ab[n - 1]);
        assert(bits.push(bit)[n - 1] == bits[n - 1]);
    }
}

/// Appending a member with its participation bit to a book and a bitvector of
/// the same length: a set bit adds the member's key after the other signers
/// and its weight, in the field, to the participating weight; a clear bit
/// changes neither.
pub proof fn lemma_signing_push(ab: Seq<AddressBookEntry>, bits: Seq<bool>, entry: AddressBookEntry, bit: bool)
    requires
        ab.len() == bits.len(),
    ensures
        signers(ab.push(entry), bits.push(bit)) == (if bit {
            signers(ab, bits).push(entry.attested.public_key@)
        } else {
            signers(ab, bits)
        }),
        signer_weight(ab.push(entry), bits.push(bit)) == (if bit {
            (signer_weight(ab, bits) + entry.weight@) % fr_modulus()
        } else {
            signer_weight(ab, bits)
        }),
{
    lemma_signing_prefix(ab, bits, entry, bit, ab.len() as int);
    assert(ab.push(entry)[ab.len() as int] == entry);
    assert(bits.push(bit)[ab.len() as int] == bit);
}

/// Bits beyond the end of the address book select no one.
pub proof fn lemma_extra_bits_ignored(ab: Seq<AddressBookEntry>, bits: Seq<bool>, extra: Seq<bool>)
    requires
        bits.len() == ab.len(),
    ensures
        signers(ab, bits + extra) == signers(ab, bits),
        signer_weight(ab, bits + extra) == signer_weight(ab, bits),
{
    lemma_bits_prefix(ab, bits, extra, ab.len() as int);
}

proof fn lemma_bits_prefix(ab: Seq<AddressBookEntry>, bits: Seq<bool>, extra: Seq<bool>, n: int)
    requires
        0 <= n <= bits.len(),
    ensures
        signers_upto(ab, bits + extra, n) == signers_upto(ab, bits, n),
        signer_weight_upto(ab, bits + extra, n) == signer_weight_upto(ab, bits, n),
    decreases n,
{
    if n > 0 {
        lemma_bits_prefix(ab, bits, extra, n - 1);
        assert((bits + extra)[n - 1] == bits[n - 1]);
    }
}

/// After an accepted prefix, an entry whose key is not the sentinel and whose
/// proof fails makes the verdict `false`, whatever follows it.
pub proof fn lemma_failing_entry_rejects(
    before: Seq<AddressBookEntry>,
    entry: AddressBookEntry,
    after: Seq<AddressBookEntry>,
    sentinel: (nat, nat),
)
    requires
        entries_verdict(before, sentinel) == Ok::<bool, WRAPSError>(true),
        entry.attested.public_key@ != sentinel,
        !attested_verdict(entry.attested),
    ensures
        entries_verdict(before.push(entry) + after, sentinel) == Ok::<bool, WRAPSError>(false),
{
    lemma_entries_verdict_append(before, seq![entry] + after, sentinel);
    assert(before + (seq![entry] + after) =~= before.push(entry) + after);
    assert((seq![entry] + after)[0] == entry);
}

} // verus!
