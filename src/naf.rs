//! Signed-digit (non-adjacent form) encoding of loop parameters.
use num_bigint::BigUint;
use num_traits::ToPrimitive;
use vstd::prelude::*;

verus! {

#[verifier::external_type_specification]
#[verifier::external_body]
pub struct ExBigUint(BigUint);

/// The integer that signed binary digits stand for, least significant first.
pub open spec fn naf_value(z: Seq<i8>) -> int
    decreases z.len(),
{
    if z.len() == 0 {
        0
    } else {
        z[0] as int + 2 * naf_value(z.subrange(1, z.len() as int))
    }
}

/// Every digit is -1, 0 or 1, no two adjacent digits are both nonzero, and
/// the most significant digit is nonzero.
pub open spec fn is_naf(z: Seq<i8>) -> bool {
    &&& forall|i: int| 0 <= i < z.len() ==> -1 <= #[trigger] z[i] <= 1
    &&& forall|i: int| 0 <= i < z.len() - 1 ==> #[trigger] z[i] == 0 || z[i + 1] == 0
    &&& z.len() > 0 ==> z[z.len() - 1] != 0
}

/// The value of a `BigUint` when it fits in an `i128`.
pub uninterp spec fn biguint_to_i128_of(n: BigUint) -> Option<i128>;

/// Relies on num-traits' `ToPrimitive::to_i128` for num-bigint's `BigUint`:
/// `None` when the value does not fit, and a `BigUint` is never negative.
#[verifier::external_body]
fn biguint_to_i128(n: &BigUint) -> (r: Option<i128>)
    ensures
        r == biguint_to_i128_of(*n),
        r matches Some(v) ==> v >= 0,
{
    n.to_i128()
}

proof fn lemma_naf_value_push(z: Seq<i8>, d: i8)
    ensures
        naf_value(z.push(d)) == naf_value(z) + d as int * vstd::arithmetic::power2::pow2(
            z.len() as nat,
        ),
    decreases z.len(),
{
    if z.len() == 0 {
        vstd::arithmetic::power2::lemma2_to64();
        assert(z.push(d).subrange(1, 1) =~= Seq::<i8>::empty());
        assert(naf_value(z.push(d)) == d as int + 2 * naf_value(Seq::<i8>::empty()));
        assert(d as int * vstd::arithmetic::power2::pow2(0) == d as int);
    } else {
        let t = z.subrange(1, z.len() as int);
        vstd::arithmetic::power2::lemma_pow2_unfold(z.len() as nat);
        assert(z.push(d).subrange(1, z.len() as int + 1) =~= t.push(d));
        lemma_naf_value_push(t, d);
        assert(z.push(d)[0] == z[0]);
        assert(naf_value(z.push(d)) == z[0] as int + 2 * naf_value(t.push(d)));
        assert(naf_value(z) == z[0] as int + 2 * naf_value(t));
        assert(2 * (d as int * vstd::arithmetic::power2::pow2(t.len() as nat)) == d as int
            * vstd::arithmetic::power2::pow2(z.len() as nat)) by (nonlinear_arith)
            requires
                vstd::arithmetic::power2::pow2(z.len() as nat) == 2
                    * vstd::arithmetic::power2::pow2(t.len() as nat),
        ;
    }
}

/// The non-adjacent form of `x`, least significant digit first; empty when
/// `x` is not positive.
pub fn to_naf(x: i128) -> (z: Vec<i8>)
    ensures
        x <= 0 ==> z@.len() == 0,
        x >= 0 ==> naf_value(z@) == x,
        is_naf(z@),
{
    let mut z: Vec<i8> = Vec::new();
    let mut x = x;
    let ghost x0 = x;
    proof {
        vstd::arithmetic::power2::lemma2_to64();
        assert(naf_value(z@) == 0);
        assert(x * vstd::arithmetic::power2::pow2(0) == x);
    }
    while x > 0
        invariant
            x0 > 0 ==> x >= 0,
            x0 <= 0 ==> x == x0 && z@.len() == 0,
            x0 > 0 ==> naf_value(z@) + x * vstd::arithmetic::power2::pow2(z@.len() as nat) == x0,
            forall|i: int| 0 <= i < z@.len() ==> -1 <= #[trigger] z@[i] <= 1,
            forall|i: int| 0 <= i < z@.len() - 1 ==> #[trigger] z@[i] == 0 || z@[i + 1] == 0,
            z@.len() > 0 && z@[z@.len() - 1] != 0 ==> x % 2 == 0,
            z@.len() > 0 && x == 0 ==> z@[z@.len() - 1] != 0,
        decreases x,
    {
        let ghost zold = z@;
        let ghost xold = x;
        proof {
            lemma_naf_value_push(zold, if x % 2 == 0 { 0i8 } else { (2 - x % 4) as i8 });
            vstd::arithmetic::power2::lemma_pow2_unfold((zold.len() + 1) as nat);
        }
        if x % 2 == 0 {
            z.push(0);
            x = x / 2;
            assert(naf_value(z@) + x * vstd::arithmetic::power2::pow2(z@.len() as nat) == x0) by (nonlinear_arith)
                requires
                    naf_value(z@) == naf_value(zold),
                    naf_value(zold) + xold * vstd::arithmetic::power2::pow2(zold.len() as nat) == x0,
                    vstd::arithmetic::power2::pow2(z@.len() as nat) == 2 * vstd::arithmetic::power2::pow2(zold.len() as nat),
                    xold == 2 * x,
            ;
        } else {
            let zi: i8 = (2 - x % 4) as i8;
            z.push(zi);
            if zi == 1 {
                x = x / 2;
            } else {
                x = x / 2 + 1;
            }
            assert(naf_value(z@) + x * vstd::arithmetic::power2::pow2(z@.len() as nat) == x0) by (nonlinear_arith)
                requires
                    naf_value(z@) == naf_value(zold) + zi as int * vstd::arithmetic::power2::pow2(zold.len() as nat),
                    naf_value(zold) + xold * vstd::arithmetic::power2::pow2(zold.len() as nat) == x0,
                    vstd::arithmetic::power2::pow2(z@.len() as nat) == 2 * vstd::arithmetic::power2::pow2(zold.len() as nat),
                    xold - zi == 2 * x,
            ;
        }
    }
    z
}

/// The non-adjacent form of `num`, or `None` when it does not fit in an `i128`.
pub fn biguint_to_naf(num: BigUint) -> (r: Option<Vec<i8>>)
    ensures
        r is Some <==> biguint_to_i128_of(num) is Some,
        r matches Some(z) ==> naf_value(z@) == biguint_to_i128_of(num)->0 && is_naf(z@),
{
    match biguint_to_i128(&num) {
        Some(v) => Some(to_naf(v)),
        None => None,
    }
}

} // verus!
