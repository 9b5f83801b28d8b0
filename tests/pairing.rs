use ark_bn254::{Fq, Fq12, G1Affine, G1Projective, G2Affine};
use ark_ec::bn::G2Prepared;
use ark_ec::{AffineRepr, CurveGroup};
use ark_ff::{Field, One, PrimeField};
use num_bigint::BigUint;
use proving_pairings::checker::PairingVerifier;
use proving_pairings::error::PairingError;
use proving_pairings::field::{Fq12Elem, G1Point, G2Point, PreparedG2};
use proving_pairings::frobenius::{fq12_to_frobenius, fq12_to_frobenius_p2, fq12_to_frobenius_p3};
use proving_pairings::lines::line_evaluation;
use proving_pairings::prover::PairingProver;
use proving_pairings::setup::PairingPVKey;

fn g1(k: u64) -> G1Affine {
    (G1Affine::generator() * ark_bn254::Fr::from(k)).into_affine()
}

fn neg_g1(p: G1Affine) -> G1Affine {
    (-G1Projective::from(p)).into_affine()
}

fn prepared(q: G2Affine) -> PreparedG2 {
    PreparedG2(G2Prepared::from(q))
}

fn lambda() -> BigUint {
    let p: BigUint = Fq::MODULUS.into();
    let x = BigUint::from(4965661367192848881u64);
    let six_x_two = x * 6u32 + 2u32;
    six_x_two + &p + p.pow(3) - p.pow(2)
}

/// The dual statement e(P, Q) * e(-P, Q) == 1.
fn dual_statement() -> (Vec<G1Point>, Vec<PreparedG2>) {
    let p = g1(5);
    let q = G2Affine::generator();
    (vec![G1Point(p), G1Point(neg_g1(p))], vec![prepared(q), prepared(q)])
}

/// The quad statement e(P,Q) * e(-P,Q) * e(2P,Q) * e(-2P,Q) == 1 and its
/// fourth term.
fn quad_statement() -> (Vec<G1Point>, Vec<PreparedG2>, G1Point, G2Point) {
    let p = g1(3);
    let p2 = g1(6);
    let q = G2Affine::generator();
    (
        vec![G1Point(p), G1Point(neg_g1(p)), G1Point(p2)],
        vec![prepared(q), prepared(q), prepared(q)],
        G1Point(neg_g1(p2)),
        G2Point(q),
    )
}

#[test]
fn setup_with_mismatched_arity_fails() {
    let q = G2Affine::generator();
    let a = vec![G1Point(g1(1)), G1Point(g1(2)), G1Point(g1(3))];
    let b = vec![prepared(q), prepared(q)];
    assert!(matches!(PairingPVKey::setup(&a, &b), Err(PairingError::ArityMismatch)));
}

#[test]
fn setup_bundle_satisfies_the_residue_relation() {
    let (a, b) = dual_statement();
    let key = PairingPVKey::setup(&a, &b).unwrap();
    assert_eq!(key.c.0 * key.c_inv.0, Fq12::one());
    assert_eq!(key.c.0.pow(lambda().to_u64_digits()), key.f.0 * key.wi.0);
}

#[test]
fn dual_proof_is_accepted() {
    let (a, b) = dual_statement();
    let key = PairingPVKey::setup(&a, &b).unwrap();
    let final_f = PairingProver::prove_dual_pairing(a.clone(), &b, &key).unwrap();
    assert!(PairingVerifier::verify(&key, final_f));
}

#[test]
fn quad_proof_is_accepted_and_deterministic() {
    let (points, lines, p4, q4) = quad_statement();
    let mut a = points.clone();
    a.push(p4);
    let mut b: Vec<PreparedG2> = lines.iter().map(|l| PreparedG2(l.0.clone())).collect();
    b.push(prepared(q4.0));
    let key = PairingPVKey::setup(&a, &b).unwrap();
    let first = PairingProver::prove_quad_pairing(points.clone(), &lines, p4, q4, &key).unwrap();
    let second = PairingProver::prove_quad_pairing(points, &lines, p4, q4, &key).unwrap();
    assert_eq!(first.0, second.0);
    assert!(PairingVerifier::verify(&key, first));
}

#[test]
fn flipped_bit_of_final_value_is_rejected() {
    let (a, b) = dual_statement();
    let key = PairingPVKey::setup(&a, &b).unwrap();
    let final_f = PairingProver::prove_dual_pairing(a, &b, &key).unwrap();
    assert!(PairingVerifier::verify(&key, final_f));
    let mut flipped = final_f.0;
    flipped.c0.c0.c0 += Fq::one();
    assert!(!PairingVerifier::verify(&key, Fq12Elem(flipped)));
    let mut flipped = final_f.0;
    flipped.c1.c2.c1 -= Fq::one();
    assert!(!PairingVerifier::verify(&key, Fq12Elem(flipped)));
}

#[test]
fn false_statement_has_no_witness() {
    let q = G2Affine::generator();
    let a = vec![G1Point(g1(5)), G1Point(g1(5))];
    let b = vec![prepared(q), prepared(q)];
    assert!(matches!(PairingPVKey::setup(&a, &b), Err(PairingError::WitnessNotFound)));
}

#[test]
fn prover_arity_mismatch() {
    let (a, b) = dual_statement();
    let key = PairingPVKey::setup(&a, &b).unwrap();
    let three = vec![a[0], a[1], a[0]];
    assert_eq!(
        PairingProver::prove_dual_pairing(three.clone(), &b, &key).unwrap_err(),
        PairingError::ArityMismatch
    );
    let one_line = vec![prepared(G2Affine::generator())];
    assert_eq!(
        PairingProver::prove_dual_pairing(a.clone(), &one_line, &key).unwrap_err(),
        PairingError::ArityMismatch
    );
    let at_infinity = vec![prepared(G2Affine::generator()), prepared(G2Affine::zero())];
    assert_eq!(
        PairingProver::prove_dual_pairing(a.clone(), &at_infinity, &key).unwrap_err(),
        PairingError::PointAtInfinity
    );
    let mut short = G2Prepared::from(G2Affine::generator());
    short.ell_coeffs.pop();
    let short_lines = vec![prepared(G2Affine::generator()), PreparedG2(short)];
    assert_eq!(
        PairingProver::prove_dual_pairing(a.clone(), &short_lines, &key).unwrap_err(),
        PairingError::ArityMismatch
    );
    assert_eq!(
        PairingProver::prove_quad_pairing(a, &b, three[0], G2Point(G2Affine::generator()), &key)
            .unwrap_err(),
        PairingError::ArityMismatch
    );
}

#[test]
fn test_beta_pi() {
    let x = Fq12::from(7u64) + Fq12::new(Default::default(), ark_bn254::Fq6::one());
    let p: BigUint = Fq::MODULUS.into();
    let e1 = fq12_to_frobenius(Fq12Elem(x));
    let e2 = fq12_to_frobenius_p2(Fq12Elem(x));
    let e3 = fq12_to_frobenius_p3(Fq12Elem(x));
    println!("beta_pi_1: {:?}", e1.0.to_string());
    println!("beta_pi_2: {:?}", e2.0.to_string());
    println!("beta_pi_3: {:?}", e3.0.to_string());
    assert_eq!(e1.0, x.pow(p.to_u64_digits()));
    assert_eq!(e2.0, fq12_to_frobenius(e1).0);
    assert_eq!(e3.0, fq12_to_frobenius(e2).0);
    assert_ne!(e1.0, x);
}

#[test]
fn line_evaluation_coefficients() {
    let p = g1(2);
    let alpha = ark_bn254::Fq2::new(Fq::from(3u64), Fq::from(4u64));
    let bias = ark_bn254::Fq2::new(Fq::from(5u64), Fq::from(6u64));
    let (c0, c1, c2) = line_evaluation(
        proving_pairings::field::Fq2Elem(alpha),
        proving_pairings::field::Fq2Elem(bias),
        G1Point(p),
    );
    assert_eq!(c0.0, -bias);
    let mut expect = -alpha;
    expect.mul_assign_by_fp(&p.x);
    assert_eq!(c1.0, expect);
    assert_eq!(c2.0, ark_bn254::Fq2::new(p.y, Fq::ZERO));
}

#[test]
fn exponent_constants() {
    let p: BigUint = Fq::MODULUS.into();
    let (p1, p2, p3) = proving_pairings::params::modulus_powers();
    assert_eq!(p1, p.to_u64_digits());
    assert_eq!(p2, p.pow(2).to_u64_digits());
    assert_eq!(p3, p.pow(3).to_u64_digits());
    assert_eq!(proving_pairings::params::lambda_limbs(), lambda().to_u64_digits());
    assert!(lambda() < p.pow(3));
}

#[test]
fn malformed_bundle_is_rejected_by_provers() {
    let (a, b) = dual_statement();
    let key = PairingPVKey::setup(&a, &b).unwrap();
    let bad = PairingPVKey { f: key.f, c: key.c, wi: key.wi, c_inv: key.c };
    assert_eq!(
        PairingProver::prove_dual_pairing(a, &b, &bad).unwrap_err(),
        PairingError::MalformedWitness
    );
    let (points, lines, p4, q4) = quad_statement();
    assert_eq!(
        PairingProver::prove_quad_pairing(points, &lines, p4, q4, &bad).unwrap_err(),
        PairingError::MalformedWitness
    );
}

#[test]
fn quad_prover_with_fourth_point_at_infinity() {
    let (points, lines, p4, _q4) = quad_statement();
    let (a, b) = dual_statement();
    let key = PairingPVKey::setup(&a, &b).unwrap();
    assert_eq!(
        PairingProver::prove_quad_pairing(points, &lines, p4, G2Point(G2Affine::zero()), &key)
            .unwrap_err(),
        PairingError::PointAtInfinity
    );
}

#[test]
fn setup_with_short_preparation_is_arity_mismatch() {
    let (a, _b) = dual_statement();
    let mut short = G2Prepared::from(G2Affine::generator());
    short.ell_coeffs.truncate(3);
    let b = vec![prepared(G2Affine::generator()), PreparedG2(short)];
    assert!(matches!(PairingPVKey::setup(&a, &b), Err(PairingError::ArityMismatch)));
}
