//! Points of the Baby-JubJub twisted Edwards curve, in affine coordinates over
//! the BN254 scalar field.

use ark_bn254::Fr;
use ark_ec::{CurveGroup, PrimeGroup};
use ark_ed_on_bn254::EdwardsAffine;
use ark_ff::{BigInteger, PrimeField};
use vstd::prelude::*;

use crate::field::{fr_eq, fr_from_u64, fr_modulus, jubjub_order, FieldElement, JubJubScalar};

verus! {

/// The coefficient `d` of Baby-JubJub in the form `x^2 + y^2 = 1 + d x^2 y^2`.
pub open spec fn jubjub_d() -> nat {
    9706598848417545097372247223557719406784115219466060233080913168975159366771nat
}

/// Whether `(x, y)` satisfies the curve equation over the BN254 scalar field.
pub open spec fn on_curve(x: nat, y: nat) -> bool {
    (y * y + x * x) % fr_modulus() == (1 + jubjub_d() * ((x * x) * (y * y))) % fr_modulus()
}

/// The x-coordinate of the fixed generator of the prime-order subgroup.
pub open spec fn generator_x() -> nat {
    19698561148652590122159747500897617769866003486955115824547446575314762165298nat
}

/// The y-coordinate of the fixed generator of the prime-order subgroup.
pub open spec fn generator_y() -> nat {
    19298250018296453272277890825869354524455968081175474282777126169995084727839nat
}

/// The fixed generator of the prime-order subgroup, as a pair of coordinates.
pub open spec fn base() -> (nat, nat) {
    (generator_x(), generator_y())
}

/// The neutral element `(0, 1)`.
pub open spec fn identity() -> (nat, nat) {
    (0nat, 1nat)
}

/// What scalar multiplication of a point by a scalar returns, in affine
/// coordinates.
pub uninterp spec fn jubjub_scalar_mul(p: (nat, nat), s: nat) -> (nat, nat);

/// What the group addition of two points returns, in affine coordinates.
pub uninterp spec fn jubjub_add(p: (nat, nat), q: (nat, nat)) -> (nat, nat);

/// A point of Baby-JubJub in affine coordinates; it always satisfies the curve
/// equation.
#[derive(Clone, Copy, Debug)]
pub struct Point {
    pub(crate) x: FieldElement,
    pub(crate) y: FieldElement,
}

impl Point {
    #[verifier::type_invariant]
    closed spec fn satisfies_curve_equation(self) -> bool {
        on_curve(self.x@, self.y@)
    }
}

impl View for Point {
    type V = (nat, nat);

    closed spec fn view(&self) -> (nat, nat) {
        (self.x@, self.y@)
    }
}

/// `EdwardsAffine::is_on_curve`: whether the coordinates satisfy the curve
/// equation.
#[verifier::external_body]
fn coordinates_on_curve(x: &FieldElement, y: &FieldElement) -> (r: bool)
    ensures
        r == on_curve(x@, y@),
{
    EdwardsAffine::new_unchecked(Fr::from_le_bytes_mod_order(&x.bytes), Fr::from_le_bytes_mod_order(&y.bytes)).is_on_curve()
}

/// `EdwardsProjective::generator()` in affine form: the constant generator
/// whose coordinates `ark_ed_on_bn254` fixes.
#[verifier::external_body]
pub(crate) fn generator() -> (r: Point)
    ensures
        r@ == (generator_x(), generator_y()),
{
    let g = ark_ed_on_bn254::EdwardsProjective::generator().into_affine();
    let (mut x, mut y) = ([0u8; 32], [0u8; 32]);
    x.copy_from_slice(&g.x.into_bigint().to_bytes_le());
    y.copy_from_slice(&g.y.into_bigint().to_bytes_le());
    Point { x: FieldElement { bytes: x }, y: FieldElement { bytes: y } }
}

/// The neutral element `(0, 1)`.
pub(crate) fn neutral() -> (r: Point)
    ensures
        r@ == identity(),
{
    let x = fr_from_u64(0);
    let y = fr_from_u64(1);
    proof {
        assert(x@ * x@ == 0 && y@ * y@ == 1);
        assert((x@ * x@) * (y@ * y@) == 0);
        assert(jubjub_d() * 0nat == 0) by (nonlinear_arith);
        assert(on_curve(x@, y@));
    }
    Point { x, y }
}

/// `Mul<Fr>` on an `EdwardsAffine` point, normalised with `into_affine`.
/// The product of a curve point is a curve point. The generator has prime
/// order `jubjub_order()`, so multiplying its multiple `a` by `s` gives its
/// multiple `a * s` reduced modulo that order.
#[verifier::external_body]
pub(crate) fn point_mul(p: &Point, s: &JubJubScalar) -> (r: Point)
    ensures
        r@ == jubjub_scalar_mul(p@, s@),
        forall|a: nat| #![trigger jubjub_scalar_mul(base(), a)]
            a < jubjub_order() && p@ == jubjub_scalar_mul(base(), a)
                ==> r@ == jubjub_scalar_mul(base(), (a * s@) % jubjub_order()),
{
    let pa = EdwardsAffine::new_unchecked(Fr::from_le_bytes_mod_order(&p.x.bytes), Fr::from_le_bytes_mod_order(&p.y.bytes));
    let q = (pa * ark_ed_on_bn254::Fr::from_le_bytes_mod_order(&s.bytes)).into_affine();
    let (mut x, mut y) = ([0u8; 32], [0u8; 32]);
    x.copy_from_slice(&q.x.into_bigint().to_bytes_le());
    y.copy_from_slice(&q.y.into_bigint().to_bytes_le());
    Point { x: FieldElement { bytes: x }, y: FieldElement { bytes: y } }
}

/// `Add` on `EdwardsAffine` points, normalised with `into_affine`. The sum of
/// curve points is a curve point. The generator has prime order
/// `jubjub_order()`, so the sum of its multiples `a` and `b` is its multiple
/// `a + b` reduced modulo that order.
#[verifier::external_body]
pub(crate) fn point_add(p: &Point, q: &Point) -> (r: Point)
    ensures
        r@ == jubjub_add(p@, q@),
        forall|a: nat, b: nat| #![trigger jubjub_scalar_mul(base(), a), jubjub_scalar_mul(base(), b)]
            a < jubjub_order() && b < jubjub_order() && p@ == jubjub_scalar_mul(base(), a) && q@ == jubjub_scalar_mul(base(), b)
                ==> r@ == jubjub_scalar_mul(base(), (a + b) % jubjub_order()),
{
    let pa = EdwardsAffine::new_unchecked(Fr::from_le_bytes_mod_order(&p.x.bytes), Fr::from_le_bytes_mod_order(&p.y.bytes));
    let qa = EdwardsAffine::new_unchecked(Fr::from_le_bytes_mod_order(&q.x.bytes), Fr::from_le_bytes_mod_order(&q.y.bytes));
    let s = (pa + qa).into_affine();
    let (mut x, mut y) = ([0u8; 32], [0u8; 32]);
    x.copy_from_slice(&s.x.into_bigint().to_bytes_le());
    y.copy_from_slice(&s.y.into_bigint().to_bytes_le());
    Point { x: FieldElement { bytes: x }, y: FieldElement { bytes: y } }
}

impl Point {
    /// The point with the given coordinates, if they satisfy the curve
    /// equation.
    pub fn from_coordinates(x: FieldElement, y: FieldElement) -> (r: Option<Point>)
        ensures
            r is Some <==> on_curve(x@, y@),
            r matches Some(p) ==> p@ == (x@, y@),
    {
        if coordinates_on_curve(&x, &y) {
            Some(Point { x, y })
        } else {
            None
        }
    }

    /// The x-coordinate.
    pub fn x(&self) -> (r: FieldElement)
        ensures
            r@ == self@.0,
    {
        self.x
    }

    /// The y-coordinate.
    pub fn y(&self) -> (r: FieldElement)
        ensures
            r@ == self@.1,
    {
        self.y
    }

    /// Whether two points are equal.
    pub fn equals(&self, other: &Point) -> (r: bool)
        ensures
            r == (self@ == other@),
    {
        fr_eq(&self.x, &other.x) && fr_eq(&self.y, &other.y)
    }
}

} // verus!
