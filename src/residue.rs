//! Finding the residue witness of a raw loop output.
//!
//! With N = p^12 - 1 the order of the target field's multiplicative group,
//! let n be N with every prime factor of lambda taken out. When `y^n == 1`,
//! `c = y^(lambda^-1 mod n)` satisfies `c^lambda == y`. For the loop output
//! `f` of a true statement, `f^n` lies in the subgroup of 27th roots of
//! unity, so one power `wi` of a primitive 27th root of unity `w` brings
//! `f * wi` to `(f * wi)^n == 1`.
use crate::bigint::{big_div, big_gcd, big_lt, big_modinv, big_mul, big_sub, small};
use crate::bigint::gcd_spec;
use crate::bigint::big_modinv_of;
use crate::field::{
    bn_p, fq12_is_one_of, fq12_k_plus_w_of, fq12_eq, fq12_is_one, fq12_k_plus_w, fq12_mul, fq12_mul_of, fq12_one, fq12_pow,
    fq12_pow_of, limbs_value, Fq12Elem,
};
use crate::params::{lambda, lambda_limbs, modulus_powers};
use vstd::prelude::*;

verus! {

/// The number of powers of `w` that the search tries.
pub const ROOT_ORDER: u64 = 27;

/// The number of candidates tried for `w`.
pub const ROOT_CANDIDATES: u64 = 16;

/// The most rounds of common-factor removal.
pub const STRIP_ROUNDS: u64 = 64;

/// p^12 - 1, the order of the target field's multiplicative group.
pub open spec fn group_order_value() -> nat {
    let p2 = bn_p() * bn_p();
    let p4 = p2 * p2;
    (p4 * p4 * p4 - 1) as nat
}

/// `n` with the prime factors it shares with `e` removed, a common divisor
/// at a time, for at most `rounds` rounds.
pub open spec fn strip_spec(n: nat, e: nat, rounds: nat) -> nat
    decreases rounds,
{
    if rounds == 0 {
        n
    } else {
        let g = gcd_spec(n, e);
        if g <= 1 || n / g == 0 {
            n
        } else {
            strip_spec(n / g, e, (rounds - 1) as nat)
        }
    }
}

/// The order with every prime factor of lambda taken out.
pub open spec fn stripped_order() -> nat {
    strip_spec(group_order_value(), lambda(), STRIP_ROUNDS as nat)
}

/// The first `g^cofactor`, for `g = k + w` from candidate `k` on, whose
/// ninth power is not one.
pub open spec fn root_search(cofactor: nat, k: nat) -> Option<Fq12Elem>
    decreases ROOT_CANDIDATES + 1 - k,
{
    if k > ROOT_CANDIDATES {
        None
    } else {
        let w = fq12_pow_of(fq12_k_plus_w_of(k as u64), cofactor);
        if !fq12_is_one_of(fq12_pow_of(w, 9)) {
            Some(w)
        } else {
            root_search(cofactor, k + 1)
        }
    }
}

/// The first `i` from `i` on, below the root's order, at which
/// `acc * step^(j - i)` is one.
pub open spec fn residue_index(acc: Fq12Elem, step: Fq12Elem, i: nat) -> Option<nat>
    decreases ROOT_ORDER - i,
{
    if i >= ROOT_ORDER {
        None
    } else if fq12_is_one_of(acc) {
        Some(i)
    } else {
        residue_index(fq12_mul_of(acc, step), step, i + 1)
    }
}

/// The witness search on `f`: with `n` the stripped order and `w` the root
/// found, the first `i` with `(f * w^i)^n == 1` gives `wi = w^i` and
/// `c = (f * wi)^(lambda^-1 mod n)`, kept only when `c^lambda == f * wi`.
pub open spec fn witness_search(f: Fq12Elem) -> Option<(Fq12Elem, Fq12Elem)> {
    let n = stripped_order();
    match big_modinv_of(lambda(), n) {
        None => None,
        Some(inv) => match root_search(group_order_value() / (ROOT_ORDER as nat), 1) {
            None => None,
            Some(w) => match residue_index(fq12_pow_of(f, n), fq12_pow_of(w, n), 0) {
                None => None,
                Some(i) => {
                    let wi = fq12_pow_of(w, i);
                    let y = fq12_mul_of(f, wi);
                    let c = fq12_pow_of(y, inv);
                    if fq12_pow_of(c, lambda()) == y {
                        Some((c, wi))
                    } else {
                        None
                    }
                },
            },
        },
    }
}

proof fn lemma_product_above_one(a: nat, b: nat)
    requires
        a > 1,
        b > 1,
    ensures
        a * b > 1,
{
    assert(a * b > 1) by (nonlinear_arith)
        requires
            a > 1,
            b > 1,
    ;
}

/// The limbs of p^12 - 1.
fn group_order() -> (r: Vec<u64>)
    ensures
        limbs_value(r@) == group_order_value(),
        limbs_value(r@) > 0,
{
    let (p, p2, _p3) = modulus_powers();
    let p4 = big_mul(&p2, &p2);
    let p8 = big_mul(&p4, &p4);
    let p12 = big_mul(&p8, &p4);
    let one = small(1);
    proof {
        lemma_product_above_one(limbs_value(p@), limbs_value(p@));
        lemma_product_above_one(limbs_value(p2@), limbs_value(p2@));
        lemma_product_above_one(limbs_value(p4@), limbs_value(p4@));
        lemma_product_above_one(limbs_value(p8@), limbs_value(p4@));
    }
    big_sub(&p12, &one)
}

/// `m` with the prime factors it shares with `e` removed.
fn strip_common_factors(m: &Vec<u64>, e: &Vec<u64>) -> (r: Vec<u64>)
    requires
        limbs_value(m@) > 0,
    ensures
        limbs_value(r@) == strip_spec(limbs_value(m@), limbs_value(e@), STRIP_ROUNDS as nat),
        limbs_value(r@) > 0,
{
    let one = small(1);
    let zero = small(0);
    let mut n = m.clone();
    let mut rounds: u64 = STRIP_ROUNDS;
    while rounds > 0
        invariant
            limbs_value(n@) > 0,
            limbs_value(one@) == 1,
            limbs_value(zero@) == 0,
            strip_spec(limbs_value(n@), limbs_value(e@), rounds as nat) == strip_spec(
                limbs_value(m@),
                limbs_value(e@),
                STRIP_ROUNDS as nat,
            ),
        decreases rounds,
    {
        let g = big_gcd(&n, e);
        if !big_lt(&one, &g) {
            return n;
        }
        let next = big_div(&n, &g);
        if !big_lt(&zero, &next) {
            return n;
        }
        n = next;
        rounds = rounds - 1;
    }
    n
}

/// The first candidate root of unity, as `root_search` gives it.
fn root_of_unity(order: &Vec<u64>) -> (r: Option<Fq12Elem>)
    ensures
        r == root_search(limbs_value(order@) / (ROOT_ORDER as nat), 1),
{
    let cofactor = big_div(order, &small(ROOT_ORDER));
    let nine = small(9);
    let mut k: u64 = 1;
    while k <= ROOT_CANDIDATES
        invariant
            1 <= k <= ROOT_CANDIDATES + 1,
            limbs_value(nine@) == 9,
            limbs_value(cofactor@) == limbs_value(order@) / (ROOT_ORDER as nat),
            root_search(limbs_value(cofactor@), k as nat) == root_search(
                limbs_value(cofactor@),
                1,
            ),
        decreases ROOT_CANDIDATES + 1 - k,
    {
        let w = fq12_pow(&fq12_k_plus_w(k), &cofactor);
        if !fq12_is_one(&fq12_pow(&w, &nine)) {
            return Some(w);
        }
        k = k + 1;
    }
    None
}

/// The index `residue_index` gives from zero.
fn find_index(start: &Fq12Elem, step: &Fq12Elem) -> (r: Option<u64>)
    ensures
        r matches Some(i) ==> residue_index(*start, *step, 0) == Some(i as nat),
        r is None ==> residue_index(*start, *step, 0) is None,
{
    let mut acc = *start;
    let mut i: u64 = 0;
    while i < ROOT_ORDER
        invariant
            i <= ROOT_ORDER,
            residue_index(acc, *step, i as nat) == residue_index(*start, *step, 0),
        decreases ROOT_ORDER - i,
    {
        if fq12_is_one(&acc) {
            return Some(i);
        }
        acc = fq12_mul(&acc, step);
        i = i + 1;
    }
    None
}

/// The residue witness `(c, wi)` of a raw loop output, as `witness_search`
/// gives it: `c^lambda == f * wi`, with `wi` a power of the root found.
pub fn find_witness(f: &Fq12Elem) -> (r: Option<(Fq12Elem, Fq12Elem)>)
    ensures
        r == witness_search(*f),
        r matches Some((c, wi)) ==> fq12_pow_of(c, lambda()) == fq12_mul_of(*f, wi),
{
    let order = group_order();
    let lam = lambda_limbs();
    let n = strip_common_factors(&order, &lam);
    let inv = match big_modinv(&lam, &n) {
        Some(v) => v,
        None => {
            return None;
        },
    };
    let w = match root_of_unity(&order) {
        Some(v) => v,
        None => {
            return None;
        },
    };
    let i = match find_index(&fq12_pow(f, &n), &fq12_pow(&w, &n)) {
        Some(i) => i,
        None => {
            return None;
        },
    };
    let wi = fq12_pow(&w, &small(i));
    let y = fq12_mul(f, &wi);
    let c = fq12_pow(&y, &inv);
    if fq12_eq(&fq12_pow(&c, &lam), &y) {
        Some((c, wi))
    } else {
        None
    }
}

} // verus!
