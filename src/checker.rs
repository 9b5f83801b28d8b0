//! Checking a prover's result against the witness.
use crate::bigint::{big_lt, big_sub};
use crate::field::{
    bn_p, fq12_eq, fq12_inverse, fq12_inverse_of, fq12_mul, fq12_mul_of, fq12_pow, fq12_pow_of,
    Fq12Elem,
};
use crate::params::{lambda, lambda_limbs, modulus_powers};
use crate::setup::PairingPVKey;
use vstd::prelude::*;

verus! {

/// The value a correct prover returns, derived from the witness alone:
/// `f * wi * c_inv^(lambda - p^3)`, written with the inverse of
/// `c_inv^(p^3 - lambda)` when lambda is below p^3. Absent when that power
/// has no inverse.
pub open spec fn hint_of(pvk: PairingPVKey) -> Option<Fq12Elem> {
    let p3 = bn_p() * bn_p() * bn_p();
    let base = fq12_mul_of(pvk.f, pvk.wi);
    if lambda() > p3 {
        Some(fq12_mul_of(base, fq12_pow_of(pvk.c_inv, (lambda() - p3) as nat)))
    } else {
        match fq12_inverse_of(fq12_pow_of(pvk.c_inv, (p3 - lambda()) as nat)) {
            Some(v) => Some(fq12_mul_of(base, v)),
            None => None,
        }
    }
}

/// Whether the verifier accepts: the hint exists, equals `c^(p^3)` (the witness
/// is consistent), and equals `final_f`.
pub open spec fn accepts(pvk: PairingPVKey, final_f: Fq12Elem) -> bool {
    match hint_of(pvk) {
        Some(h) => h == fq12_pow_of(pvk.c, bn_p() * bn_p() * bn_p()) && final_f == h,
        None => false,
    }
}

/// The verifier accepts a value exactly when it is the derived hint and the
/// hint equals `c^(p^3)`; so it accepts at most one value per bundle, and
/// any value that differs from an accepted one in a single bit is rejected.
pub proof fn lemma_accepts_only_hint(pvk: PairingPVKey, final_f: Fq12Elem, other: Fq12Elem)
    requires
        accepts(pvk, final_f),
    ensures
        hint_of(pvk) == Some(final_f),
        final_f == fq12_pow_of(pvk.c, bn_p() * bn_p() * bn_p()),
        accepts(pvk, other) <==> other == final_f,
{
}

pub struct PairingVerifier;

impl PairingVerifier {
    /// Whether `final_f` proves the statement that `pvk` was set up for.
    pub fn verify(pvk: &PairingPVKey, final_f: Fq12Elem) -> (r: bool)
        ensures
            r == accepts(*pvk, final_f),
    {
        let (_p, _p2, p3) = modulus_powers();
        let lam = lambda_limbs();
        let base = fq12_mul(&pvk.f, &pvk.wi);
        let hint = if big_lt(&p3, &lam) {
            let exp = big_sub(&lam, &p3);
            fq12_mul(&base, &fq12_pow(&pvk.c_inv, &exp))
        } else {
            let exp = big_sub(&p3, &lam);
            match fq12_inverse(&fq12_pow(&pvk.c_inv, &exp)) {
                Some(v) => fq12_mul(&base, &v),
                None => {
                    return false;
                },
            }
        };
        let expected = fq12_pow(&pvk.c, &p3);
        fq12_eq(&hint, &expected) && fq12_eq(&final_f, &hint)
    }
}

} // verus!
