//! Arithmetic on nonnegative integers held as little-endian 64-bit limbs,
//! the form in which the field library takes exponents.
use crate::field::limbs_value;
use num_bigint::BigUint;
use vstd::prelude::*;

verus! {

/// Relies on num-bigint's `BigUint` addition.
#[verifier::external_body]
pub fn big_add(a: &Vec<u64>, b: &Vec<u64>) -> (r: Vec<u64>)
    ensures
        limbs_value(r@) == limbs_value(a@) + limbs_value(b@),
{
    let x = BigUint::from_bytes_le(&a.iter().flat_map(|d| d.to_le_bytes()).collect::<Vec<u8>>());
    let y = BigUint::from_bytes_le(&b.iter().flat_map(|d| d.to_le_bytes()).collect::<Vec<u8>>());
    (x + y).to_u64_digits()
}

/// Relies on num-bigint's `BigUint` subtraction, which panics on underflow.
#[verifier::external_body]
pub fn big_sub(a: &Vec<u64>, b: &Vec<u64>) -> (r: Vec<u64>)
    requires
        limbs_value(a@) >= limbs_value(b@),
    ensures
        limbs_value(r@) == limbs_value(a@) - limbs_value(b@),
{
    let x = BigUint::from_bytes_le(&a.iter().flat_map(|d| d.to_le_bytes()).collect::<Vec<u8>>());
    let y = BigUint::from_bytes_le(&b.iter().flat_map(|d| d.to_le_bytes()).collect::<Vec<u8>>());
    (x - y).to_u64_digits()
}

/// Relies on num-bigint's `BigUint` multiplication.
#[verifier::external_body]
pub fn big_mul(a: &Vec<u64>, b: &Vec<u64>) -> (r: Vec<u64>)
    ensures
        limbs_value(r@) == limbs_value(a@) * limbs_value(b@),
{
    let x = BigUint::from_bytes_le(&a.iter().flat_map(|d| d.to_le_bytes()).collect::<Vec<u8>>());
    let y = BigUint::from_bytes_le(&b.iter().flat_map(|d| d.to_le_bytes()).collect::<Vec<u8>>());
    (x * y).to_u64_digits()
}

/// Relies on num-bigint's `BigUint` division, which truncates and panics on a
/// zero divisor.
#[verifier::external_body]
pub fn big_div(a: &Vec<u64>, b: &Vec<u64>) -> (r: Vec<u64>)
    requires
        limbs_value(b@) > 0,
    ensures
        limbs_value(r@) == limbs_value(a@) / limbs_value(b@),
{
    let x = BigUint::from_bytes_le(&a.iter().flat_map(|d| d.to_le_bytes()).collect::<Vec<u8>>());
    let y = BigUint::from_bytes_le(&b.iter().flat_map(|d| d.to_le_bytes()).collect::<Vec<u8>>());
    (x / y).to_u64_digits()
}

/// Relies on num-bigint's `BigUint` remainder, which panics on a zero divisor.
#[verifier::external_body]
pub fn big_rem(a: &Vec<u64>, b: &Vec<u64>) -> (r: Vec<u64>)
    requires
        limbs_value(b@) > 0,
    ensures
        limbs_value(r@) == limbs_value(a@) % limbs_value(b@),
{
    let x = BigUint::from_bytes_le(&a.iter().flat_map(|d| d.to_le_bytes()).collect::<Vec<u8>>());
    let y = BigUint::from_bytes_le(&b.iter().flat_map(|d| d.to_le_bytes()).collect::<Vec<u8>>());
    (x % y).to_u64_digits()
}

/// The inverse that num-bigint's `BigUint::modinv` computes, if any.
pub uninterp spec fn big_modinv_of(a: nat, m: nat) -> Option<nat>;

/// Relies on num-bigint's `BigUint::modinv`, which panics on a zero modulus
/// and otherwise returns an inverse exactly when one exists; its result
/// depends on the two values alone.
#[verifier::external_body]
pub fn big_modinv(a: &Vec<u64>, m: &Vec<u64>) -> (r: Option<Vec<u64>>)
    requires
        limbs_value(m@) > 0,
    ensures
        r is Some <==> big_modinv_of(limbs_value(a@), limbs_value(m@)) is Some,
        r matches Some(v) ==> limbs_value(v@) == big_modinv_of(limbs_value(a@), limbs_value(m@))->0,
        r matches Some(v) ==> (limbs_value(a@) * limbs_value(v@)) % limbs_value(m@) == (1 as nat)
            % limbs_value(m@),
{
    let x = BigUint::from_bytes_le(&a.iter().flat_map(|d| d.to_le_bytes()).collect::<Vec<u8>>());
    let y = BigUint::from_bytes_le(&m.iter().flat_map(|d| d.to_le_bytes()).collect::<Vec<u8>>());
    x.modinv(&y).map(|v| v.to_u64_digits())
}

/// Relies on the `Ord` of num-bigint's `BigUint`, which orders by value.
#[verifier::external_body]
pub fn big_lt(a: &Vec<u64>, b: &Vec<u64>) -> (r: bool)
    ensures
        r == (limbs_value(a@) < limbs_value(b@)),
{
    let x = BigUint::from_bytes_le(&a.iter().flat_map(|d| d.to_le_bytes()).collect::<Vec<u8>>());
    let y = BigUint::from_bytes_le(&b.iter().flat_map(|d| d.to_le_bytes()).collect::<Vec<u8>>());
    x < y
}

/// The limbs of a machine word.
pub fn small(v: u64) -> (r: Vec<u64>)
    ensures
        limbs_value(r@) == v,
{
    let r = vec![v];
    assert(r@.subrange(1, 1) =~= Seq::<u64>::empty());
    assert(limbs_value(Seq::<u64>::empty()) == 0);
    assert(limbs_value(r@) == r@[0] as nat + 0x1_0000_0000_0000_0000 * limbs_value(r@.subrange(1, 1)));
    r
}

/// The greatest common divisor, by Euclid's algorithm.
pub open spec fn gcd_spec(a: nat, b: nat) -> nat
    decreases b,
{
    if b == 0 {
        a
    } else {
        gcd_spec(b, a % b)
    }
}

/// The greatest common divisor divides both arguments.
pub proof fn lemma_gcd_divides(a: nat, b: nat)
    requires
        gcd_spec(a, b) > 0,
    ensures
        a % gcd_spec(a, b) == 0,
        b % gcd_spec(a, b) == 0,
    decreases b,
{
    let g = gcd_spec(a, b);
    if b == 0 {
        vstd::arithmetic::div_mod::lemma_mod_self_0(a as int);
        vstd::arithmetic::div_mod::lemma_small_mod(0, a);
    } else {
        lemma_gcd_divides(b, a % b);
        vstd::arithmetic::div_mod::lemma_fundamental_div_mod(a as int, b as int);
        vstd::arithmetic::div_mod::lemma_fundamental_div_mod(b as int, g as int);
        vstd::arithmetic::div_mod::lemma_fundamental_div_mod((a % b) as int, g as int);
        let k1 = b / g;
        let k2 = (a % b) / g;
        let q = a / b;
        assert(a == g * (q * k1 + k2)) by (nonlinear_arith)
            requires
                b == g * k1,
                a % b == g * k2,
                a == b * q + a % b,
        ;
        vstd::arithmetic::div_mod::lemma_mod_multiples_basic((q * k1 + k2) as int, g as int);
        assert((q * k1 + k2) * g == g * (q * k1 + k2)) by (nonlinear_arith);
    }
}

/// The greatest common divisor of `a` and `b`, by Euclid's algorithm.
pub fn big_gcd(a: &Vec<u64>, b: &Vec<u64>) -> (r: Vec<u64>)
    ensures
        limbs_value(r@) == gcd_spec(limbs_value(a@), limbs_value(b@)),
        limbs_value(a@) > 0 ==> limbs_value(r@) > 0,
        limbs_value(r@) > 0 ==> limbs_value(a@) % limbs_value(r@) == 0 && limbs_value(b@)
            % limbs_value(r@) == 0,
{
    let mut x = a.clone();
    let mut y = b.clone();
    let zero = small(0);
    while big_lt(&zero, &y)
        invariant
            limbs_value(a@) > 0 ==> limbs_value(x@) > 0,
            limbs_value(zero@) == 0,
            gcd_spec(limbs_value(x@), limbs_value(y@)) == gcd_spec(limbs_value(a@), limbs_value(b@)),
        decreases limbs_value(y@),
    {
        let t = big_rem(&x, &y);
        x = y;
        y = t;
    }
    proof {
        if limbs_value(x@) > 0 {
            lemma_gcd_divides(limbs_value(a@), limbs_value(b@));
        }
    }
    x
}

} // verus!
