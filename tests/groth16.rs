use ark_bn254::{Bn254, Fq, Fr, G1Affine, G1Projective, G2Affine};
use ark_ec::bn::G2Prepared;
use ark_ec::{AffineRepr, CurveGroup};
use ark_ff::One;
use ark_groth16::Groth16;
use ark_relations::r1cs::{
    ConstraintSynthesizer, ConstraintSystemRef, LinearCombination, SynthesisError,
};
use ark_std::UniformRand;
use proving_pairings::error::PairingError;
use proving_pairings::field::{G1Point, PreparedG2};
use proving_pairings::setup::PairingPVKey;
use proving_pairings::groth16::{Groth16Proof, Groth16Verifier, PreparedKey, ScalarElem};

#[derive(Clone, Copy)]
struct DummyCircuit {
    a: Option<Fr>,
    b: Option<Fr>,
    num_variables: usize,
    num_constraints: usize,
}

impl ConstraintSynthesizer<Fr> for DummyCircuit {
    fn generate_constraints(self, cs: ConstraintSystemRef<Fr>) -> Result<(), SynthesisError> {
        let a = cs.new_witness_variable(|| self.a.ok_or(SynthesisError::AssignmentMissing))?;
        let b = cs.new_witness_variable(|| self.b.ok_or(SynthesisError::AssignmentMissing))?;
        let c = cs.new_input_variable(|| {
            let a = self.a.ok_or(SynthesisError::AssignmentMissing)?;
            let b = self.b.ok_or(SynthesisError::AssignmentMissing)?;
            Ok(a * b)
        })?;
        for _ in 0..(self.num_variables - 3) {
            let _ = cs.new_witness_variable(|| self.a.ok_or(SynthesisError::AssignmentMissing))?;
        }
        for _ in 0..self.num_constraints - 1 {
            cs.enforce_constraint(
                LinearCombination::from(a),
                LinearCombination::from(b),
                LinearCombination::from(c),
            )?;
        }
        cs.enforce_constraint(
            LinearCombination::zero(),
            LinearCombination::zero(),
            LinearCombination::zero(),
        )?;
        Ok(())
    }
}

/// A proof of a dummy circuit with 2^k constraints, its prepared key and its
/// public inputs, from a fixed seed.
fn gen_groth16_dummy_circuit_proof(
    k: u32,
) -> (ark_groth16::Proof<Bn254>, ark_groth16::PreparedVerifyingKey<Bn254>, Vec<Fr>) {
    let mut rng = ark_std::test_rng();
    let circuit = DummyCircuit {
        a: Some(Fr::rand(&mut rng)),
        b: Some(Fr::rand(&mut rng)),
        num_variables: 10,
        num_constraints: 1 << k,
    };
    let pk = Groth16::<Bn254>::generate_random_parameters_with_reduction(circuit, &mut rng).unwrap();
    let proof = Groth16::<Bn254>::create_random_proof_with_reduction(circuit, &pk, &mut rng).unwrap();
    let pvk = ark_groth16::prepare_verifying_key(&pk.vk);
    let c = circuit.a.unwrap() * circuit.b.unwrap();
    (proof, pvk, vec![c])
}

fn scalars(pi: &[Fr]) -> Vec<ScalarElem> {
    pi.iter().map(|x| ScalarElem(*x)).collect()
}

#[test]
fn test_groth16_verifier() {
    type E = Bn254;

    let k = 6;

    // 1. gen proof
    let (proof, pvk, pi) = gen_groth16_dummy_circuit_proof(k);

    // 2. verify with native verifier
    assert!(
        Groth16::<E>::verify_proof(&pvk, &proof, &pi).unwrap(),
        "native verifier can't pass"
    );

    // 3. verifier with new one
    let key = PreparedKey(pvk);
    let proof = Groth16Proof(proof);
    assert!(Groth16Verifier::verify_proof_with_c_wi(&key, &proof, &scalars(&pi)).unwrap());
}

#[test]
fn conventional_and_optimized_modes_agree() {
    let (proof, pvk, pi) = gen_groth16_dummy_circuit_proof(3);
    let key = PreparedKey(pvk);
    let proof = Groth16Proof(proof);
    let inputs = scalars(&pi);
    assert_eq!(Groth16Verifier::verify(&key, &proof, &inputs, false), Ok(true));
    assert_eq!(Groth16Verifier::verify(&key, &proof, &inputs, true), Ok(true));
}

#[test]
fn tampered_public_input_is_rejected() {
    let (proof, pvk, mut pi) = gen_groth16_dummy_circuit_proof(3);
    pi[0] += Fr::one();
    let key = PreparedKey(pvk);
    let proof = Groth16Proof(proof);
    let inputs = scalars(&pi);
    assert_eq!(Groth16Verifier::verify(&key, &proof, &inputs, false), Ok(false));
    assert_eq!(Groth16Verifier::verify(&key, &proof, &inputs, true), Ok(false));
}

#[test]
fn tampered_proof_a_is_rejected() {
    let (mut proof, pvk, pi) = gen_groth16_dummy_circuit_proof(3);
    proof.a = (proof.a + proof.c).into();
    let key = PreparedKey(pvk);
    let proof = Groth16Proof(proof);
    assert_eq!(Groth16Verifier::verify_proof_with_c_wi(&key, &proof, &scalars(&pi)), Ok(false));
}

#[test]
fn corrupted_proof_b_coordinate_is_rejected() {
    let (mut proof, pvk, pi) = gen_groth16_dummy_circuit_proof(3);
    proof.b.x.c0 += Fq::one();
    let key = PreparedKey(pvk);
    let proof = Groth16Proof(proof);
    assert_eq!(Groth16Verifier::verify(&key, &proof, &scalars(&pi), true), Ok(false));
}

#[test]
fn wrong_public_input_count_is_arity_mismatch() {
    let (proof, pvk, pi) = gen_groth16_dummy_circuit_proof(3);
    let key = PreparedKey(pvk);
    let proof = Groth16Proof(proof);
    let mut inputs = scalars(&pi);
    inputs.push(ScalarElem(Fr::one()));
    assert_eq!(
        Groth16Verifier::verify_proof_with_c_wi(&key, &proof, &inputs),
        Err(PairingError::ArityMismatch)
    );
    assert_eq!(Groth16Verifier::verify(&key, &proof, &inputs, false), Err(PairingError::ArityMismatch));
    assert!(Groth16Verifier::prepare_inputs(&key, &Vec::new()).is_err());
}

#[test]
fn bundle_of_another_statement_is_rejected() {
    let (proof, pvk, pi) = gen_groth16_dummy_circuit_proof(3);
    let key = PreparedKey(pvk);
    let proof = Groth16Proof(proof);
    let prepared = Groth16Verifier::prepare_inputs(&key, &scalars(&pi)).unwrap();
    let g = G1Affine::generator();
    let q = G2Affine::generator();
    let a = vec![G1Point(g), G1Point((-G1Projective::from(g)).into_affine())];
    let b = vec![PreparedG2(G2Prepared::from(q)), PreparedG2(G2Prepared::from(q))];
    let other = PairingPVKey::setup(&a, &b).unwrap();
    assert_eq!(Groth16Verifier::verify_with_bundle(&key, &proof, &prepared, &other), Ok(false));
}

#[test]
fn prepared_input_is_first_base_plus_msm() {
    let (_proof, pvk, pi) = gen_groth16_dummy_circuit_proof(3);
    let bases = pvk.vk.gamma_abc_g1.clone();
    let expect = bases[0].into_group() + bases[1] * pi[0];
    let key = PreparedKey(pvk);
    let prepared = Groth16Verifier::prepare_inputs(&key, &scalars(&pi)).unwrap();
    assert_eq!(prepared.0.into_affine(), expect.into_affine());
    assert_ne!(prepared.0.into_affine(), bases[0]);
}

#[test]
fn key_with_short_preparation_is_arity_mismatch() {
    let (proof, mut pvk, pi) = gen_groth16_dummy_circuit_proof(3);
    pvk.gamma_g2_neg_pc.ell_coeffs.truncate(5);
    let key = PreparedKey(pvk);
    let proof = Groth16Proof(proof);
    let inputs = scalars(&pi);
    assert_eq!(Groth16Verifier::verify(&key, &proof, &inputs, false), Err(PairingError::ArityMismatch));
    assert_eq!(Groth16Verifier::verify(&key, &proof, &inputs, true), Err(PairingError::ArityMismatch));
}
