//! The witness bundle for a pairing-product statement.
use crate::error::PairingError;
use crate::field::{
    fq12_inverse, fq12_is_one, fq12_is_one_of, fq12_mul, fq12_mul_of, fq12_pow_of,
    fq12_inverse_of, multi_miller_loop, multi_miller_loop_of, prepared_infinity_of,
    prepared_is_infinity, prepared_lines, prepared_lines_of, Fq12Elem, G1Point, PreparedG2,
};
use crate::prover::{bases_fit, line_count, line_count_exec};
use crate::params::lambda;
use crate::residue::{find_witness, witness_search};
use vstd::prelude::*;

verus! {

/// The raw loop output `f` of a statement and its residue witness: `c` and
/// `wi` with `f * wi == c^lambda`, and `c_inv` the inverse of `c`.
pub struct PairingPVKey {
    pub f: Fq12Elem,
    pub c: Fq12Elem,
    pub wi: Fq12Elem,
    pub c_inv: Fq12Elem,
}

/// The relations a witness bundle satisfies: `c * c_inv` is one and
/// `c^lambda == f * wi`.
pub open spec fn bundle_holds(k: PairingPVKey) -> bool {
    &&& fq12_is_one_of(fq12_mul_of(k.c, k.c_inv))
    &&& fq12_pow_of(k.c, lambda()) == fq12_mul_of(k.f, k.wi)
}

/// The bundle that `setup` builds for the bases `a` and `b`.
pub open spec fn setup_spec(a: Seq<G1Point>, b: Seq<PreparedG2>) -> Result<PairingPVKey, PairingError> {
    if a.len() != b.len() || !bases_fit(b) {
        Err(PairingError::ArityMismatch)
    } else {
        let f = multi_miller_loop_of(a, b);
        match witness_search(f) {
            None => Err(PairingError::WitnessNotFound),
            Some((c, wi)) => match fq12_inverse_of(c) {
                None => Err(PairingError::WitnessNotFound),
                Some(c_inv) => if fq12_is_one_of(fq12_mul_of(c, c_inv)) {
                    Ok(PairingPVKey { f, c, wi, c_inv })
                } else {
                    Err(PairingError::WitnessNotFound)
                },
            },
        }
    }
}

/// Whether every preparation is at infinity or holds the loop's lines.
pub fn check_bases(b: &Vec<PreparedG2>) -> (r: bool)
    ensures
        r == bases_fit(b@),
{
    let n = line_count_exec();
    let mut i: usize = 0;
    while i < b.len()
        invariant
            i <= b@.len(),
            n == line_count(),
            forall|j: int|
                0 <= j < i ==> #[trigger] prepared_infinity_of(b@[j])
                    || prepared_lines_of(b@[j]).len() == line_count(),
        decreases b@.len() - i,
    {
        if !prepared_is_infinity(&b[i]) && prepared_lines(&b[i]).len() != n {
            return false;
        }
        i = i + 1;
    }
    true
}

impl PairingPVKey {
    /// Runs the raw multi-Miller loop over the paired bases and finds the
    /// residue witness of its output. `ArityMismatch` when the two sequences
    /// differ in length or a base that is not at infinity lacks the loop's
    /// lines; `WitnessNotFound` when the search finds no witness.
    pub fn setup(a: &Vec<G1Point>, b: &Vec<PreparedG2>) -> (r: Result<PairingPVKey, PairingError>)
        ensures
            r == setup_spec(a@, b@),
            r matches Ok(k) ==> k.f == multi_miller_loop_of(a@, b@) && bundle_holds(k),
    {
        if a.len() != b.len() || !check_bases(b) {
            return Err(PairingError::ArityMismatch);
        }
        let f = multi_miller_loop(a, b);
        let (c, wi) = match find_witness(&f) {
            Some(w) => w,
            None => {
                return Err(PairingError::WitnessNotFound);
            },
        };
        let c_inv = match fq12_inverse(&c) {
            Some(v) => v,
            None => {
                return Err(PairingError::WitnessNotFound);
            },
        };
        if !fq12_is_one(&fq12_mul(&c, &c_inv)) {
            return Err(PairingError::WitnessNotFound);
        }
        Ok(PairingPVKey { f, c, wi, c_inv })
    }
}

} // verus!
