//! Elements of the two prime fields of the library: the BN254 scalar field
//! (which is also the base field of the Baby-JubJub curve) and the scalar field
//! of Baby-JubJub. Both are held as 32 little-endian bytes.

use ark_ff::{BigInteger, PrimeField};
use vstd::prelude::*;

verus! {

/// The order of the BN254 scalar field.
pub open spec fn fr_modulus() -> nat {
    21888242871839275222246405745257275088548364400416034343698204186575808495617nat
}

/// The order of the prime subgroup of Baby-JubJub (its scalar field).
pub open spec fn jubjub_order() -> nat {
    2736030358979909402780800718157159386076813972158567259200215660948447373041nat
}

/// The integer that a little-endian byte string denotes.
pub open spec fn le_nat(bytes: Seq<u8>) -> nat
    decreases bytes.len(),
{
    if bytes.len() == 0 {
        0
    } else {
        bytes[0] as nat + 256 * le_nat(bytes.drop_first())
    }
}

/// An element of the BN254 scalar field.
#[derive(Clone, Copy, Debug)]
pub struct FieldElement {
    pub(crate) bytes: [u8; 32],
}

/// An element of the Baby-JubJub scalar field.
#[derive(Clone, Copy, Debug)]
pub struct JubJubScalar {
    pub(crate) bytes: [u8; 32],
}

impl View for FieldElement {
    type V = nat;

    closed spec fn view(&self) -> nat {
        le_nat(self.bytes@) % fr_modulus()
    }
}

impl View for JubJubScalar {
    type V = nat;

    closed spec fn view(&self) -> nat {
        le_nat(self.bytes@) % jubjub_order()
    }
}

/// `ark_bn254::Fr::from_le_bytes_mod_order`: the integer the little-endian
/// bytes denote, reduced modulo the field order.
#[verifier::external_body]
pub(crate) fn fr_from_le_bytes(bytes: &[u8]) -> (r: FieldElement)
    ensures
        r@ == le_nat(bytes@) % fr_modulus(),
{
    let f = ark_bn254::Fr::from_le_bytes_mod_order(bytes);
    let mut out = [0u8; 32];
    out.copy_from_slice(&f.into_bigint().to_bytes_le());
    FieldElement { bytes: out }
}

/// `ark_bn254::Fr::from(u64)`: the field element with the given integer value.
#[verifier::external_body]
pub(crate) fn fr_from_u64(v: u64) -> (r: FieldElement)
    ensures
        r@ == v as nat,
{
    let f = ark_bn254::Fr::from(v);
    let mut out = [0u8; 32];
    out.copy_from_slice(&f.into_bigint().to_bytes_le());
    FieldElement { bytes: out }
}

/// One for `true`, zero for `false`.
pub(crate) fn fr_from_bool(b: bool) -> (r: FieldElement)
    ensures
        r@ == (if b { 1nat } else { 0nat }),
{
    fr_from_u64(if b { 1 } else { 0 })
}

/// `ark_bn254::Fr::from(i64)`: a non-negative argument is its own value; a
/// negative one is the additive inverse of its absolute value.
#[verifier::external_body]
pub(crate) fn fr_from_i64(v: i64) -> (r: FieldElement)
    ensures
        r@ == (if v >= 0 { v as nat } else { (fr_modulus() + v) as nat }),
{
    let f = ark_bn254::Fr::from(v);
    let mut out = [0u8; 32];
    out.copy_from_slice(&f.into_bigint().to_bytes_le());
    FieldElement { bytes: out }
}

/// `Add` on `ark_bn254::Fr`: addition modulo the field order.
#[verifier::external_body]
pub(crate) fn fr_add(a: &FieldElement, b: &FieldElement) -> (r: FieldElement)
    ensures
        r@ == (a@ + b@) % fr_modulus(),
{
    let f = ark_bn254::Fr::from_le_bytes_mod_order(&a.bytes)
        + ark_bn254::Fr::from_le_bytes_mod_order(&b.bytes);
    let mut out = [0u8; 32];
    out.copy_from_slice(&f.into_bigint().to_bytes_le());
    FieldElement { bytes: out }
}

/// `PartialEq` on `ark_bn254::Fr`: equality of field values.
#[verifier::external_body]
pub(crate) fn fr_eq(a: &FieldElement, b: &FieldElement) -> (r: bool)
    ensures
        r == (a@ == b@),
{
    ark_bn254::Fr::from_le_bytes_mod_order(&a.bytes) == ark_bn254::Fr::from_le_bytes_mod_order(&b.bytes)
}

/// `PartialOrd` on `ark_bn254::Fr`, which compares the canonical integer
/// representatives in `0 .. modulus`.
#[verifier::external_body]
pub(crate) fn fr_gt(a: &FieldElement, b: &FieldElement) -> (r: bool)
    ensures
        r == (a@ > b@),
{
    ark_bn254::Fr::from_le_bytes_mod_order(&a.bytes) > ark_bn254::Fr::from_le_bytes_mod_order(&b.bytes)
}

/// `into_bigint().to_bytes_le()` on `ark_bn254::Fr`: the 32 little-endian
/// bytes of the canonical representative.
#[verifier::external_body]
pub(crate) fn fr_to_bytes_le(a: &FieldElement) -> (r: [u8; 32])
    ensures
        le_nat(r@) == a@,
{
    let mut out = [0u8; 32];
    out.copy_from_slice(&ark_bn254::Fr::from_le_bytes_mod_order(&a.bytes).into_bigint().to_bytes_le());
    out
}

impl FieldElement {
    /// The field element that the little-endian bytes denote, reduced modulo
    /// the field order.
    pub fn from_le_bytes_mod_order(bytes: &[u8]) -> (r: FieldElement)
        ensures
            r@ == le_nat(bytes@) % fr_modulus(),
    {
        fr_from_le_bytes(bytes)
    }

    /// The 32 little-endian bytes of the canonical representative.
    pub fn to_bytes_le(&self) -> (r: [u8; 32])
        ensures
            le_nat(r@) == self@,
    {
        fr_to_bytes_le(self)
    }

    /// Whether two elements are equal.
    pub fn equals(&self, other: &FieldElement) -> (r: bool)
        ensures
            r == (self@ == other@),
    {
        fr_eq(self, other)
    }
}

/// `ark_ed_on_bn254::Fr::from_le_bytes_mod_order`: the integer the
/// little-endian bytes denote, reduced modulo the order of the scalar field.
#[verifier::external_body]
pub(crate) fn scalar_from_le_bytes(bytes: &[u8]) -> (r: JubJubScalar)
    ensures
        r@ == le_nat(bytes@) % jubjub_order(),
{
    let f = ark_ed_on_bn254::Fr::from_le_bytes_mod_order(bytes);
    let mut out = [0u8; 32];
    out.copy_from_slice(&f.into_bigint().to_bytes_le());
    JubJubScalar { bytes: out }
}

/// `Add` on `ark_ed_on_bn254::Fr`: addition modulo the scalar field order.
#[verifier::external_body]
pub(crate) fn scalar_add(a: &JubJubScalar, b: &JubJubScalar) -> (r: JubJubScalar)
    ensures
        r@ == (a@ + b@) % jubjub_order(),
{
    let f = ark_ed_on_bn254::Fr::from_le_bytes_mod_order(&a.bytes)
        + ark_ed_on_bn254::Fr::from_le_bytes_mod_order(&b.bytes);
    let mut out = [0u8; 32];
    out.copy_from_slice(&f.into_bigint().to_bytes_le());
    JubJubScalar { bytes: out }
}

/// `Mul` on `ark_ed_on_bn254::Fr`: multiplication modulo the scalar field order.
#[verifier::external_body]
pub(crate) fn scalar_mul(a: &JubJubScalar, b: &JubJubScalar) -> (r: JubJubScalar)
    ensures
        r@ == (a@ * b@) % jubjub_order(),
{
    let f = ark_ed_on_bn254::Fr::from_le_bytes_mod_order(&a.bytes)
        * ark_ed_on_bn254::Fr::from_le_bytes_mod_order(&b.bytes);
    let mut out = [0u8; 32];
    out.copy_from_slice(&f.into_bigint().to_bytes_le());
    JubJubScalar { bytes: out }
}

/// `PartialEq` on `ark_ed_on_bn254::Fr`: equality of field values.
#[verifier::external_body]
pub(crate) fn scalar_eq(a: &JubJubScalar, b: &JubJubScalar) -> (r: bool)
    ensures
        r == (a@ == b@),
{
    ark_ed_on_bn254::Fr::from_le_bytes_mod_order(&a.bytes)
        == ark_ed_on_bn254::Fr::from_le_bytes_mod_order(&b.bytes)
}

/// `into_bigint().to_bytes_le()` on `ark_ed_on_bn254::Fr`: the 32
/// little-endian bytes of the canonical representative.
#[verifier::external_body]
pub(crate) fn scalar_to_bytes_le(a: &JubJubScalar) -> (r: [u8; 32])
    ensures
        le_nat(r@) == a@,
{
    let mut out = [0u8; 32];
    let f = ark_ed_on_bn254::Fr::from_le_bytes_mod_order(&a.bytes);
    out.copy_from_slice(&f.into_bigint().to_bytes_le());
    out
}

/// `ark_ed_on_bn254::Fr::from(u64)`: the scalar with the given integer value.
#[verifier::external_body]
pub(crate) fn scalar_from_u64(v: u64) -> (r: JubJubScalar)
    ensures
        r@ == v as nat,
{
    let f = ark_ed_on_bn254::Fr::from(v);
    let mut out = [0u8; 32];
    out.copy_from_slice(&f.into_bigint().to_bytes_le());
    JubJubScalar { bytes: out }
}

impl JubJubScalar {
    /// The scalar that the little-endian bytes denote, reduced modulo the
    /// order of the scalar field.
    pub fn from_le_bytes_mod_order(bytes: &[u8]) -> (r: JubJubScalar)
        ensures
            r@ == le_nat(bytes@) % jubjub_order(),
    {
        scalar_from_le_bytes(bytes)
    }

    /// The 32 little-endian bytes of the canonical representative.
    pub fn to_bytes_le(&self) -> (r: [u8; 32])
        ensures
            le_nat(r@) == self@,
    {
        scalar_to_bytes_le(self)
    }

    /// Whether two scalars are equal.
    pub fn equals(&self, other: &JubJubScalar) -> (r: bool)
        ensures
            r == (self@ == other@),
    {
        scalar_eq(self, other)
    }
}

/// Byte strings of equal length that denote the same integer are equal.
pub proof fn lemma_le_nat_injective(a: Seq<u8>, b: Seq<u8>)
    requires
        a.len() == b.len(),
        le_nat(a) == le_nat(b),
    ensures
        a == b,
    decreases a.len(),
{
    if a.len() > 0 {
        assert(a[0] as nat + 256 * le_nat(a.drop_first()) == b[0] as nat + 256 * le_nat(b.drop_first()));
        lemma_le_nat_injective(a.drop_first(), b.drop_first());
        assert(a =~= seq![a[0]] + a.drop_first());
        assert(b =~= seq![b[0]] + b.drop_first());
    } else {
        assert(a =~= b);
    }
}

/// A scalar's value lies below the order of the scalar field.
pub proof fn lemma_scalar_below_order(s: JubJubScalar)
    ensures
        s@ < jubjub_order(),
{
}

/// A field element's value lies below the field order.
pub proof fn lemma_field_element_below_modulus(f: FieldElement)
    ensures
        f@ < fr_modulus(),
{
}

} // verus!
