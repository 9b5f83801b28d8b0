//! The fixed exponents of the BN254 pairing check.
use crate::bigint::{big_add, big_mul, big_sub, small};
use crate::field::{base_modulus, bn_p, bn_x, curve_x, limbs_value};
use vstd::prelude::*;

verus! {

/// The residue exponent lambda = 6x + 2 + p - p^2 + p^3, of which the
/// witness `c` must be a root of `f * wi`.
pub open spec fn lambda() -> nat {
    (6 * bn_x() + 2 + bn_p() - bn_p() * bn_p() + bn_p() * bn_p() * bn_p()) as nat
}

/// The limbs of p^2 and p^3.
pub fn modulus_powers() -> (r: (Vec<u64>, Vec<u64>, Vec<u64>))
    ensures
        limbs_value(r.0@) == bn_p(),
        limbs_value(r.1@) == bn_p() * bn_p(),
        limbs_value(r.2@) == bn_p() * bn_p() * bn_p(),
{
    let p = base_modulus();
    let p2 = big_mul(&p, &p);
    let p3 = big_mul(&p2, &p);
    (p, p2, p3)
}

/// The limbs of lambda.
pub fn lambda_limbs() -> (r: Vec<u64>)
    ensures
        limbs_value(r@) == lambda(),
{
    let (p, p2, p3) = modulus_powers();
    let x = curve_x();
    let loop_count = big_add(&big_mul(&small(6), &x), &small(2));
    let sum = big_add(&big_add(&loop_count, &p), &p3);
    assert(bn_p() * bn_p() * bn_p() >= bn_p() * bn_p()) by (nonlinear_arith)
        requires
            bn_p() >= 1,
    ;
    big_sub(&sum, &p2)
}

} // verus!
