//! The curve library's values and the operations on them that this library
//! relies on.
//!
//! The curve library's field and point types are generic over configuration
//! traits, so each value is carried here in a struct of this library whose
//! content Verus does not see. Every operation is named by a spec function of
//! its arguments, so that contracts can say exactly which operations a result
//! was built from.
use ark_bn254::{Fq, Fq12, Fq2, Fq6, G1Affine, G2Affine};
use ark_ec::bn::G2Prepared;
use ark_ff::{Field, One, PrimeField};
use vstd::prelude::*;

verus! {

/// An element of the degree-12 target field.
#[verifier::external_body]
#[derive(Copy, Debug)]
pub struct Fq12Elem(pub Fq12);

impl Clone for Fq12Elem {
    fn clone(&self) -> (r: Self)
        ensures
            r == *self,
    {
        *self
    }
}

/// An element of the degree-2 extension field.
#[verifier::external_body]
#[derive(Copy, Debug)]
pub struct Fq2Elem(pub Fq2);

impl Clone for Fq2Elem {
    fn clone(&self) -> (r: Self)
        ensures
            r == *self,
    {
        *self
    }
}

/// An element of the base field.
#[verifier::external_body]
#[derive(Copy, Debug)]
pub struct FqElem(pub Fq);

impl Clone for FqElem {
    fn clone(&self) -> (r: Self)
        ensures
            r == *self,
    {
        *self
    }
}

/// An affine point of the first source group.
#[verifier::external_body]
#[derive(Copy, Debug)]
pub struct G1Point(pub G1Affine);

impl Clone for G1Point {
    fn clone(&self) -> (r: Self)
        ensures
            r == *self,
    {
        *self
    }
}

/// An affine point of the second source group.
#[verifier::external_body]
#[derive(Copy, Debug)]
pub struct G2Point(pub G2Affine);

impl Clone for G2Point {
    fn clone(&self) -> (r: Self)
        ensures
            r == *self,
    {
        *self
    }
}

/// The precomputed line coefficients of a point of the second group.
#[verifier::external_body]
#[derive(Debug)]
pub struct PreparedG2(pub G2Prepared<ark_bn254::Config>);

/// One line-evaluation coefficient triple.
#[derive(Clone, Copy, Debug)]
pub struct LineCoeff {
    pub c0: Fq2Elem,
    pub c1: Fq2Elem,
    pub c2: Fq2Elem,
}

/// The value of little-endian 64-bit limbs.
pub open spec fn limbs_value(s: Seq<u64>) -> nat
    decreases s.len(),
{
    if s.len() == 0 {
        0
    } else {
        s[0] as nat + 0x1_0000_0000_0000_0000 * limbs_value(s.subrange(1, s.len() as int))
    }
}

/// The BN254 base-field modulus p = 36x^4 + 36x^3 + 24x^2 + 6x + 1.
pub open spec fn bn_p() -> nat {
    let x = bn_x();
    36 * x * x * x * x + 36 * x * x * x + 24 * x * x + 6 * x + 1
}

/// The BN254 curve parameter x.
pub open spec fn bn_x() -> nat {
    4965661367192848881
}

/// The signed digits of the Ate-loop count 6x + 2, least significant first.
pub open spec fn ate_digits() -> Seq<int> {
    seq![
        0, 0, 0, 1, 0, 1, 0, -1, 0, 0, 1, -1, 0, 0, 1, 0, 0, 1, 1, 0, -1, 0, 0, 1, 0, -1, 0, 0, 0,
        0, 1, 1, 1, 0, 0, -1, 0, 0, 1, 0, 0, 0, 0, 0, -1, 0, 0, 1, 1, 0, 0, -1, 0, 0, 0, 1, 1, 0,
        -1, 0, 0, 1, 0, 1, 1,
    ]
}

/// The product of two target-field elements.
pub uninterp spec fn fq12_mul_of(a: Fq12Elem, b: Fq12Elem) -> Fq12Elem;

/// The square of a target-field element.
pub uninterp spec fn fq12_square_of(a: Fq12Elem) -> Fq12Elem;

/// A target-field element raised to a nonnegative integer.
pub uninterp spec fn fq12_pow_of(a: Fq12Elem, e: nat) -> Fq12Elem;

/// The multiplicative inverse, absent for zero.
pub uninterp spec fn fq12_inverse_of(a: Fq12Elem) -> Option<Fq12Elem>;

/// Whether a target-field element is the multiplicative identity.
pub uninterp spec fn fq12_is_one_of(a: Fq12Elem) -> bool;

/// The image of a target-field element under the Frobenius map applied `power` times.
pub uninterp spec fn fq12_frobenius_of(a: Fq12Elem, power: nat) -> Fq12Elem;

/// A target-field element times the sparse element with nonzero
/// coefficients `c0`, `c3` and `c4` only.
pub uninterp spec fn fq12_mul_by_034_of(
    f: Fq12Elem,
    c0: Fq2Elem,
    c3: Fq2Elem,
    c4: Fq2Elem,
) -> Fq12Elem;

/// A degree-2 element scaled by a base-field element.
pub uninterp spec fn fq2_mul_by_fp_of(a: Fq2Elem, s: FqElem) -> Fq2Elem;

/// The affine x-coordinate of a group-1 point.
pub uninterp spec fn g1_x_of(p: G1Point) -> FqElem;

/// The affine y-coordinate of a group-1 point.
pub uninterp spec fn g1_y_of(p: G1Point) -> FqElem;

/// The line preparation of a group-2 point.
pub uninterp spec fn g2_prepare_of(q: G2Point) -> PreparedG2;

/// The line-coefficient sequence held by a preparation.
pub uninterp spec fn prepared_lines_of(q: PreparedG2) -> Seq<LineCoeff>;

/// The raw multi-Miller-loop product, without final exponentiation.
pub uninterp spec fn multi_miller_loop_of(a: Seq<G1Point>, b: Seq<PreparedG2>) -> Fq12Elem;

/// Relies on `Mul` of ark-ff's `Fp12`: the product depends on the factors alone.
#[verifier::external_body]
pub fn fq12_mul(a: &Fq12Elem, b: &Fq12Elem) -> (r: Fq12Elem)
    ensures
        r == fq12_mul_of(*a, *b),
{
    Fq12Elem(a.0 * b.0)
}

/// Relies on ark-ff's `Field::square` for `Fp12`.
#[verifier::external_body]
pub fn fq12_square(a: &Fq12Elem) -> (r: Fq12Elem)
    ensures
        r == fq12_square_of(*a),
{
    Fq12Elem(a.0.square())
}

/// Relies on ark-ff's `Field::pow` for `Fp12`, which reads the exponent as
/// little-endian 64-bit limbs.
#[verifier::external_body]
pub fn fq12_pow(a: &Fq12Elem, e: &Vec<u64>) -> (r: Fq12Elem)
    ensures
        r == fq12_pow_of(*a, limbs_value(e@)),
{
    Fq12Elem(a.0.pow(e))
}

/// Relies on ark-ff's `Field::inverse` for `Fp12`.
#[verifier::external_body]
pub fn fq12_inverse(a: &Fq12Elem) -> (r: Option<Fq12Elem>)
    ensures
        r == fq12_inverse_of(*a),
{
    a.0.inverse().map(|v| Fq12Elem(v))
}

/// Relies on ark-ff's `One::is_one` for `Fp12`.
#[verifier::external_body]
pub fn fq12_is_one(a: &Fq12Elem) -> (r: bool)
    ensures
        r == fq12_is_one_of(*a),
{
    a.0.is_one()
}

/// Relies on ark-ff's `One::one` for `Fp12`, for which `is_one` holds.
#[verifier::external_body]
pub fn fq12_one() -> (r: Fq12Elem)
    ensures
        fq12_is_one_of(r),
{
    Fq12Elem(Fq12::one())
}

/// Relies on the `PartialEq` of ark-ff's `Fp12`, which compares the reduced
/// (canonical) coefficients, so equal results mean equal elements.
#[verifier::external_body]
pub fn fq12_eq(a: &Fq12Elem, b: &Fq12Elem) -> (r: bool)
    ensures
        r == (*a == *b),
{
    a.0 == b.0
}

/// Relies on ark-ff's `Field::frobenius_map` for `Fp12`.
#[verifier::external_body]
pub fn fq12_frobenius(a: &Fq12Elem, power: usize) -> (r: Fq12Elem)
    ensures
        r == fq12_frobenius_of(*a, power as nat),
{
    Fq12Elem(a.0.frobenius_map(power))
}

/// Relies on ark-ff's `Fp12::mul_by_034`.
#[verifier::external_body]
pub fn fq12_mul_by_034(f: &Fq12Elem, c0: &Fq2Elem, c3: &Fq2Elem, c4: &Fq2Elem) -> (r: Fq12Elem)
    ensures
        r == fq12_mul_by_034_of(*f, *c0, *c3, *c4),
{
    let mut v = f.0;
    v.mul_by_034(&c0.0, &c3.0, &c4.0);
    Fq12Elem(v)
}

/// The negation of a degree-2 element.
pub uninterp spec fn fq2_neg_of(a: Fq2Elem) -> Fq2Elem;

/// The degree-2 element whose first coefficient is `a` and second is zero.
pub uninterp spec fn fq2_from_base_of(a: FqElem) -> Fq2Elem;

/// Relies on `Neg` of ark-ff's `Fp2`.
#[verifier::external_body]
pub fn fq2_neg(a: &Fq2Elem) -> (r: Fq2Elem)
    ensures
        r == fq2_neg_of(*a),
{
    Fq2Elem(-a.0)
}

/// Relies on ark-ff's `Fp2::new` with `Fq::ZERO` as second coefficient.
#[verifier::external_body]
pub fn fq2_from_base(a: &FqElem) -> (r: Fq2Elem)
    ensures
        r == fq2_from_base_of(*a),
{
    Fq2Elem(Fq2::new(a.0, Fq::ZERO))
}

/// Relies on ark-ff's `Fp2::mul_assign_by_fp`.
#[verifier::external_body]
pub fn fq2_mul_by_fp(a: &Fq2Elem, s: &FqElem) -> (r: Fq2Elem)
    ensures
        r == fq2_mul_by_fp_of(*a, *s),
{
    let mut v = a.0;
    v.mul_assign_by_fp(&s.0);
    Fq2Elem(v)
}

/// Relies on the `x` field of ark-ec's short-Weierstrass `Affine`.
#[verifier::external_body]
pub fn g1_x(p: &G1Point) -> (r: FqElem)
    ensures
        r == g1_x_of(*p),
{
    FqElem(p.0.x)
}

/// Relies on the `y` field of ark-ec's short-Weierstrass `Affine`.
#[verifier::external_body]
pub fn g1_y(p: &G1Point) -> (r: FqElem)
    ensures
        r == g1_y_of(*p),
{
    FqElem(p.0.y)
}

/// Whether a preparation is marked as that of the point at infinity.
pub uninterp spec fn prepared_infinity_of(q: PreparedG2) -> bool;

/// The candidate element `k + w` of the target field.
pub uninterp spec fn fq12_k_plus_w_of(k: u64) -> Fq12Elem;

/// Relies on ark-ec's `From<G2Affine> for G2Prepared`, which runs the
/// doubling and addition steps of the loop on the point and records each
/// line: for a point not at infinity, one doubling line per digit below the
/// most significant, one addition line per nonzero such digit, and two more.
#[verifier::external_body]
pub fn g2_prepare(q: &G2Point) -> (r: PreparedG2)
    ensures
        r == g2_prepare_of(*q),
        !prepared_infinity_of(r) ==> prepared_lines_of(r).len() == crate::prover::line_count(),
{
    PreparedG2(G2Prepared::from(q.0))
}

/// Relies on ark-ec's `G2Prepared::is_zero`, which reads its `infinity` field.
#[verifier::external_body]
pub fn prepared_is_infinity(q: &PreparedG2) -> (r: bool)
    ensures
        r == prepared_infinity_of(*q),
{
    q.0.is_zero()
}

/// Relies on the `Clone` of ark-ec's `G2Prepared`, which clones each field.
#[verifier::external_body]
pub fn prepared_clone(q: &PreparedG2) -> (r: PreparedG2)
    ensures
        r == *q,
{
    PreparedG2(q.0.clone())
}

/// Relies on the public `ell_coeffs` field of ark-ec's `G2Prepared`.
#[verifier::external_body]
pub fn prepared_lines(q: &PreparedG2) -> (r: Vec<LineCoeff>)
    ensures
        r@ == prepared_lines_of(*q),
{
    q.0.ell_coeffs.iter().map(|c| LineCoeff { c0: Fq2Elem(c.0), c1: Fq2Elem(c.1), c2: Fq2Elem(c.2) }).collect()
}

/// Relies on ark-ec's `Bn::multi_miller_loop` (through `BnConfig`), which
/// pairs the two sequences with `zip_eq` and panics when their lengths differ,
/// skips the pairs with a point at infinity, and for the others draws one
/// line per loop step and nonzero digit and two more, panicking when a
/// preparation holds fewer.
#[verifier::external_body]
pub fn multi_miller_loop(a: &Vec<G1Point>, b: &Vec<PreparedG2>) -> (r: Fq12Elem)
    requires
        a@.len() == b@.len(),
        crate::prover::bases_fit(b@),
    ensures
        r == multi_miller_loop_of(a@, b@),
{
    let out = <ark_bn254::Config as ark_ec::bn::BnConfig>::multi_miller_loop(a.iter().map(|p| p.0), b.iter().map(|q| q.0.clone()));
    Fq12Elem(out.0)
}

/// Relies on ark-ff's `Fp12::new`, `Fp6::from` and `Fp6::one`: the element
/// `k + w` of the target field, with `w` the generator of its top layer.
#[verifier::external_body]
pub fn fq12_k_plus_w(k: u64) -> (r: Fq12Elem)
    ensures
        r == fq12_k_plus_w_of(k),
{
    Fq12Elem(Fq12::new(Fq6::from(k), Fq6::one()))
}

/// Relies on ark-bn254's `Config::ATE_LOOP_COUNT`, the digits of 6x + 2.
#[verifier::external_body]
pub fn ate_loop_count() -> (r: Vec<i8>)
    ensures
        r@.len() == ate_digits().len(),
        forall|i: int| 0 <= i < r@.len() ==> r@[i] as int == #[trigger] ate_digits()[i],
{
    <ark_bn254::Config as ark_ec::bn::BnConfig>::ATE_LOOP_COUNT.to_vec()
}

/// Relies on ark-ff's `PrimeField::MODULUS` of ark-bn254's `Fq`.
#[verifier::external_body]
pub fn base_modulus() -> (r: Vec<u64>)
    ensures
        limbs_value(r@) == bn_p(),
{
    Fq::MODULUS.as_ref().to_vec()
}

/// Relies on ark-bn254's `Config::X`, the curve parameter x.
#[verifier::external_body]
pub fn curve_x() -> (r: Vec<u64>)
    ensures
        limbs_value(r@) == bn_x(),
{
    <ark_bn254::Config as ark_ec::bn::BnConfig>::X.to_vec()
}

} // verus!
