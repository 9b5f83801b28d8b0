//! Errors reported to callers.
use vstd::prelude::*;

verus! {

/// Why a pairing statement could not be processed.
#[derive(Clone, Copy, Debug, PartialEq, Eq, Structural)]
pub enum PairingError {
    /// Input lengths disagree with each other or with the statement's shape.
    ArityMismatch,
    /// No residue witness was found for the loop output; the statement is
    /// false or its inputs are malformed.
    WitnessNotFound,
    /// The witness bundle handed to a prover is malformed: `c * c_inv` is
    /// not one.
    MalformedWitness,
    /// A prepared group-2 point of a proved term is the point at infinity,
    /// which has no lines to fold.
    PointAtInfinity,
}

} // verus!
