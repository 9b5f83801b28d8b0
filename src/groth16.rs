//! A Groth16 verifier whose four-pairing check is proved with a residue
//! witness instead of a final exponentiation.
use crate::checker::{accepts, PairingVerifier};
use crate::error::PairingError;
use crate::field::{
    g2_prepare, g2_prepare_of, G1Point, G2Point, PreparedG2,
};
use crate::prover::{bases_fit, quad_spec, PairingProver};
use crate::setup::{check_bases, setup_spec, PairingPVKey};
use ark_bn254::{Bn254, Fr, G1Projective};
use ark_ec::{AffineRepr, CurveGroup, VariableBaseMSM};
use ark_groth16::{Groth16, PreparedVerifyingKey, Proof};
use vstd::prelude::*;

verus! {

/// A prepared Groth16 verifying key over BN254.
#[verifier::external_body]
#[derive(Debug)]
pub struct PreparedKey(pub PreparedVerifyingKey<Bn254>);

/// A Groth16 proof over BN254.
#[verifier::external_body]
#[derive(Debug)]
pub struct Groth16Proof(pub Proof<Bn254>);

/// A scalar of the BN254 group order, as public inputs are.
#[verifier::external_body]
#[derive(Copy, Debug)]
pub struct ScalarElem(pub Fr);

impl Clone for ScalarElem {
    fn clone(&self) -> (r: Self)
        ensures
            r == *self,
    {
        *self
    }
}

/// A point of the first group in projective coordinates.
#[verifier::external_body]
#[derive(Copy, Debug)]
pub struct G1Proj(pub G1Projective);

impl Clone for G1Proj {
    fn clone(&self) -> (r: Self)
        ensures
            r == *self,
    {
        *self
    }
}

/// The key's bases for the public inputs.
pub uninterp spec fn key_gamma_abc_of(k: PreparedKey) -> Seq<G1Point>;

/// The key's fixed group-1 element alpha.
pub uninterp spec fn key_alpha_of(k: PreparedKey) -> G1Point;

/// The key's fixed group-2 element beta.
pub uninterp spec fn key_beta_of(k: PreparedKey) -> G2Point;

/// The key's prepared lines of -gamma.
pub uninterp spec fn key_gamma_neg_pc_of(k: PreparedKey) -> PreparedG2;

/// The key's prepared lines of -delta.
pub uninterp spec fn key_delta_neg_pc_of(k: PreparedKey) -> PreparedG2;

/// The proof's group-1 element A.
pub uninterp spec fn proof_a_of(p: Groth16Proof) -> G1Point;

/// The proof's group-2 element B.
pub uninterp spec fn proof_b_of(p: Groth16Proof) -> G2Point;

/// The proof's group-1 element C.
pub uninterp spec fn proof_c_of(p: Groth16Proof) -> G1Point;

/// The negation of a group-2 point.
pub uninterp spec fn g2_neg_of(q: G2Point) -> G2Point;

/// The multi-scalar multiplication of bases by scalars.
pub uninterp spec fn g1_msm_of(bases: Seq<G1Point>, scalars: Seq<ScalarElem>) -> G1Proj;

/// The sum of an affine and a projective group-1 point.
pub uninterp spec fn g1_add_of(p: G1Point, q: G1Proj) -> G1Proj;

/// The affine form of a projective group-1 point.
pub uninterp spec fn g1_affine_of(q: G1Proj) -> G1Point;

/// The result of the curve library's own Groth16 check, absent when it
/// reports an error.
pub uninterp spec fn conventional_verify_of(
    k: PreparedKey,
    p: Groth16Proof,
    inputs: Seq<ScalarElem>,
) -> Option<bool>;

/// Relies on the `vk.gamma_abc_g1` field of ark-groth16's `PreparedVerifyingKey`.
#[verifier::external_body]
fn key_gamma_abc(k: &PreparedKey) -> (r: Vec<G1Point>)
    ensures
        r@ == key_gamma_abc_of(*k),
{
    k.0.vk.gamma_abc_g1.iter().map(|p| G1Point(*p)).collect()
}

/// Relies on the `vk.alpha_g1` field of ark-groth16's `PreparedVerifyingKey`.
#[verifier::external_body]
fn key_alpha(k: &PreparedKey) -> (r: G1Point)
    ensures
        r == key_alpha_of(*k),
{
    G1Point(k.0.vk.alpha_g1)
}

/// Relies on the `vk.beta_g2` field of ark-groth16's `PreparedVerifyingKey`.
#[verifier::external_body]
fn key_beta(k: &PreparedKey) -> (r: G2Point)
    ensures
        r == key_beta_of(*k),
{
    G2Point(k.0.vk.beta_g2)
}

/// Relies on the `gamma_g2_neg_pc` field of ark-groth16's `PreparedVerifyingKey`.
#[verifier::external_body]
fn key_gamma_neg_pc(k: &PreparedKey) -> (r: PreparedG2)
    ensures
        r == key_gamma_neg_pc_of(*k),
{
    PreparedG2(k.0.gamma_g2_neg_pc.clone())
}

/// Relies on the `delta_g2_neg_pc` field of ark-groth16's `PreparedVerifyingKey`.
#[verifier::external_body]
fn key_delta_neg_pc(k: &PreparedKey) -> (r: PreparedG2)
    ensures
        r == key_delta_neg_pc_of(*k),
{
    PreparedG2(k.0.delta_g2_neg_pc.clone())
}

/// Relies on the `a` field of ark-groth16's `Proof`.
#[verifier::external_body]
fn proof_a(p: &Groth16Proof) -> (r: G1Point)
    ensures
        r == proof_a_of(*p),
{
    G1Point(p.0.a)
}

/// Relies on the `b` field of ark-groth16's `Proof`.
#[verifier::external_body]
fn proof_b(p: &Groth16Proof) -> (r: G2Point)
    ensures
        r == proof_b_of(*p),
{
    G2Point(p.0.b)
}

/// Relies on the `c` field of ark-groth16's `Proof`.
#[verifier::external_body]
fn proof_c(p: &Groth16Proof) -> (r: G1Point)
    ensures
        r == proof_c_of(*p),
{
    G1Point(p.0.c)
}

/// Relies on `Neg` of ark-ec's short-Weierstrass `Affine`.
#[verifier::external_body]
fn g2_neg(q: &G2Point) -> (r: G2Point)
    ensures
        r == g2_neg_of(*q),
{
    G2Point(-q.0)
}

/// Relies on ark-ec's `VariableBaseMSM::msm`, which fails only when the two
/// slices differ in length.
#[verifier::external_body]
fn g1_msm(bases: &Vec<G1Point>, scalars: &Vec<ScalarElem>) -> (r: G1Proj)
    requires
        bases@.len() == scalars@.len(),
    ensures
        r == g1_msm_of(bases@, scalars@),
{
    let b: Vec<_> = bases.iter().map(|p| p.0).collect();
    let s: Vec<_> = scalars.iter().map(|x| x.0).collect();
    G1Proj(G1Projective::msm(&b, &s).unwrap())
}

/// Relies on ark-ec's `AffineRepr::into_group` and the `Add` of `Projective`.
#[verifier::external_body]
fn g1_add(p: &G1Point, q: &G1Proj) -> (r: G1Proj)
    ensures
        r == g1_add_of(*p, *q),
{
    G1Proj(p.0.into_group() + q.0)
}

/// Relies on ark-ec's `CurveGroup::into_affine`.
#[verifier::external_body]
fn g1_affine(q: &G1Proj) -> (r: G1Point)
    ensures
        r == g1_affine_of(*q),
{
    G1Point(q.0.into_affine())
}

/// Relies on ark-groth16's `Groth16::verify_proof`: its result, or `None`
/// where it reports an error. It runs the curve library's multi-Miller loop
/// on the key's -gamma and -delta preparations, which panics on a
/// preparation that is not at infinity and lacks the loop's lines.
#[verifier::external_body]
fn conventional_verify(k: &PreparedKey, p: &Groth16Proof, inputs: &Vec<ScalarElem>) -> (r: Option<
    bool,
>)
    requires
        bases_fit(seq![key_gamma_neg_pc_of(*k), key_delta_neg_pc_of(*k)]),
    ensures
        r == conventional_verify_of(*k, *p, inputs@),
{
    let s: Vec<Fr> = inputs.iter().map(|x| x.0).collect();
    Groth16::<Bn254>::verify_proof(&k.0, &p.0, &s).ok()
}

/// The group-1 points of the three fixed terms: the prepared input, C and alpha.
pub open spec fn fixed_points(k: PreparedKey, p: Groth16Proof, prepared: G1Proj) -> Seq<G1Point> {
    seq![g1_affine_of(prepared), proof_c_of(p), key_alpha_of(k)]
}

/// The prepared lines of the three fixed terms: -gamma, -delta and -beta.
pub open spec fn fixed_lines(k: PreparedKey) -> Seq<PreparedG2> {
    seq![
        key_gamma_neg_pc_of(k),
        key_delta_neg_pc_of(k),
        g2_prepare_of(g2_neg_of(key_beta_of(k))),
    ]
}

/// The bases of the four-term statement
/// `e(I,-gamma) * e(C,-delta) * e(alpha,-beta) * e(A,B) == 1`: its group-1 points.
pub open spec fn statement_points(k: PreparedKey, p: Groth16Proof, prepared: G1Proj) -> Seq<G1Point> {
    fixed_points(k, p, prepared).push(proof_a_of(p))
}

/// The preparations of the four-term statement's group-2 points.
pub open spec fn statement_bases(k: PreparedKey, p: Groth16Proof) -> Seq<PreparedG2> {
    fixed_lines(k).push(g2_prepare_of(proof_b_of(p)))
}

/// The result of proving the four-term statement against the bundle `b`
/// and checking the prover's value.
pub open spec fn bundle_result(
    k: PreparedKey,
    p: Groth16Proof,
    prepared: G1Proj,
    b: PairingPVKey,
) -> Result<bool, PairingError> {
    match quad_spec(fixed_points(k, p, prepared), fixed_lines(k), proof_a_of(p), proof_b_of(p), b) {
        Ok(f) => Ok(accepts(b, f)),
        Err(e) => Err(e),
    }
}

/// The result of the optimized check: set up the witness for the
/// four-term statement, then prove and check it. A statement for which no
/// witness is found is rejected.
pub open spec fn optimized_result(k: PreparedKey, p: Groth16Proof, prepared: G1Proj) -> Result<
    bool,
    PairingError,
> {
    match setup_spec(statement_points(k, p, prepared), statement_bases(k, p)) {
        Ok(b) => bundle_result(k, p, prepared, b),
        Err(PairingError::WitnessNotFound) => Ok(false),
        Err(e) => Err(e),
    }
}

/// The result of the conventional check: `ArityMismatch` for a key whose
/// -gamma or -delta preparation lacks the loop's lines, else whether the
/// curve library's Groth16 check accepts.
pub open spec fn conventional_result(k: PreparedKey, p: Groth16Proof, inputs: Seq<ScalarElem>) -> Result<
    bool,
    PairingError,
> {
    if !bases_fit(seq![key_gamma_neg_pc_of(k), key_delta_neg_pc_of(k)]) {
        Err(PairingError::ArityMismatch)
    } else {
        Ok(conventional_verify_of(k, p, inputs) == Some(true))
    }
}

/// The prepared input `I`: the first base plus the multi-scalar
/// multiplication of the others by the public inputs.
pub open spec fn prepared_input_of(k: PreparedKey, inputs: Seq<ScalarElem>) -> G1Proj {
    let bases = key_gamma_abc_of(k);
    g1_add_of(bases[0], g1_msm_of(bases.subrange(1, bases.len() as int), inputs))
}

pub struct Groth16Verifier;

impl Groth16Verifier {
    /// Verifies a proof against public inputs with the residue-witness
    /// pairing check. `ArityMismatch` unless there is one more base than
    /// inputs.
    pub fn verify_proof_with_c_wi(
        pvk: &PreparedKey,
        proof: &Groth16Proof,
        public_inputs: &Vec<ScalarElem>,
    ) -> (r: Result<bool, PairingError>)
        ensures
            r == if public_inputs@.len() + 1 == key_gamma_abc_of(*pvk).len() {
                optimized_result(*pvk, *proof, prepared_input_of(*pvk, public_inputs@))
            } else {
                Err(PairingError::ArityMismatch)
            },
    {
        let prepared = Self::prepare_inputs(pvk, public_inputs)?;
        Self::verify_proof_with_prepared_inputs(pvk, proof, &prepared)
    }

    /// The prepared input: the first base plus the multi-scalar
    /// multiplication of the others by the public inputs. `ArityMismatch`
    /// unless there is one more base than inputs.
    pub fn prepare_inputs(pvk: &PreparedKey, public_inputs: &Vec<ScalarElem>) -> (r: Result<
        G1Proj,
        PairingError,
    >)
        ensures
            r == if public_inputs@.len() + 1 == key_gamma_abc_of(*pvk).len() {
                Ok::<G1Proj, PairingError>(prepared_input_of(*pvk, public_inputs@))
            } else {
                Err::<G1Proj, PairingError>(PairingError::ArityMismatch)
            },
    {
        let bases = key_gamma_abc(pvk);
        if bases.len() == 0 || public_inputs.len() != bases.len() - 1 {
            return Err(PairingError::ArityMismatch);
        }
        let mut rest: Vec<G1Point> = Vec::new();
        let mut i: usize = 1;
        while i < bases.len()
            invariant
                1 <= i <= bases@.len(),
                rest@ == bases@.subrange(1, i as int),
            decreases bases@.len() - i,
        {
            rest.push(bases[i]);
            i = i + 1;
            assert(rest@ =~= bases@.subrange(1, i as int));
        }
        let sum = g1_msm(&rest, public_inputs);
        Ok(g1_add(&bases[0], &sum))
    }

    /// Verifies a proof against its prepared input: sets up the witness for
    /// the four-term statement, proves it with the three fixed terms
    /// prepared, and checks the result. `Ok(false)` when no witness is found
    /// or the check fails; the errors of setup and of the prover otherwise.
    pub fn verify_proof_with_prepared_inputs(
        pvk: &PreparedKey,
        proof: &Groth16Proof,
        prepared_inputs: &G1Proj,
    ) -> (r: Result<bool, PairingError>)
        ensures
            r == optimized_result(*pvk, *proof, *prepared_inputs),
    {
        let sum = g1_affine(prepared_inputs);
        let c = proof_c(proof);
        let alpha = key_alpha(pvk);
        let a = proof_a(proof);
        let b = proof_b(proof);
        let beta_neg = g2_neg(&key_beta(pvk));
        let points = vec![sum, c, alpha, a];
        let bases = vec![
            key_gamma_neg_pc(pvk),
            key_delta_neg_pc(pvk),
            g2_prepare(&beta_neg),
            g2_prepare(&b),
        ];
        assert(points@ =~= statement_points(*pvk, *proof, *prepared_inputs));
        assert(bases@ =~= statement_bases(*pvk, *proof));
        let key = match PairingPVKey::setup(&points, &bases) {
            Ok(k) => k,
            Err(PairingError::WitnessNotFound) => {
                return Ok(false);
            },
            Err(e) => {
                return Err(e);
            },
        };
        Self::verify_with_bundle(pvk, proof, prepared_inputs, &key)
    }

    /// Proves the four-term statement of a proof against a given witness
    /// bundle and checks the result; the prover's errors pass through.
    pub fn verify_with_bundle(
        pvk: &PreparedKey,
        proof: &Groth16Proof,
        prepared_inputs: &G1Proj,
        key: &PairingPVKey,
    ) -> (r: Result<bool, PairingError>)
        ensures
            r == bundle_result(*pvk, *proof, *prepared_inputs, *key),
    {
        let eval_points = vec![g1_affine(prepared_inputs), proof_c(proof), key_alpha(pvk)];
        let lines = vec![
            key_gamma_neg_pc(pvk),
            key_delta_neg_pc(pvk),
            g2_prepare(&g2_neg(&key_beta(pvk))),
        ];
        assert(eval_points@ =~= fixed_points(*pvk, *proof, *prepared_inputs));
        assert(lines@ =~= fixed_lines(*pvk));
        let final_f = PairingProver::prove_quad_pairing(
            eval_points,
            &lines,
            proof_a(proof),
            proof_b(proof),
            key,
        )?;
        Ok(PairingVerifier::verify(key, final_f))
    }

    /// Verifies a proof against public inputs, with the residue-witness check
    /// when `optimized` holds and with the curve library's own four-pairing
    /// check otherwise. `ArityMismatch` unless there is one more base than
    /// inputs.
    pub fn verify(
        pvk: &PreparedKey,
        proof: &Groth16Proof,
        public_inputs: &Vec<ScalarElem>,
        optimized: bool,
    ) -> (r: Result<bool, PairingError>)
        ensures
            r == if public_inputs@.len() + 1 != key_gamma_abc_of(*pvk).len() {
                Err(PairingError::ArityMismatch)
            } else if optimized {
                optimized_result(*pvk, *proof, prepared_input_of(*pvk, public_inputs@))
            } else {
                conventional_result(*pvk, *proof, public_inputs@)
            },
    {
        if !optimized {
            let bases = key_gamma_abc(pvk);
            if bases.len() == 0 || public_inputs.len() != bases.len() - 1 {
                return Err(PairingError::ArityMismatch);
            }
            let fixed = vec![key_gamma_neg_pc(pvk), key_delta_neg_pc(pvk)];
            assert(fixed@ =~= seq![key_gamma_neg_pc_of(*pvk), key_delta_neg_pc_of(*pvk)]);
            if !check_bases(&fixed) {
                return Err(PairingError::ArityMismatch);
            }
            return match conventional_verify(pvk, proof, public_inputs) {
                Some(v) => Ok(v),
                None => Ok(false),
            };
        }
        Self::verify_proof_with_c_wi(pvk, proof, public_inputs)
    }
}

} // verus!
