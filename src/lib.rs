//! Proving and verifying pairing-product equalities over BN254 without a
//! final exponentiation, and a Groth16 verifier built on top of it.

pub mod field;
pub mod naf;
pub mod bigint;
pub mod error;
pub mod frobenius;
pub mod lines;
pub mod params;
pub mod residue;
pub mod setup;
pub mod prover;
pub mod checker;
pub mod groth16;
