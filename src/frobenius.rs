//! The Frobenius endomorphism of the target field and its powers.
use crate::field::{fq12_frobenius, fq12_frobenius_of, Fq12Elem};
use vstd::prelude::*;

verus! {

/// The image of `q12` under the Frobenius map, `q12^p`.
pub fn fq12_to_frobenius(q12: Fq12Elem) -> (r: Fq12Elem)
    ensures
        r == fq12_frobenius_of(q12, 1),
{
    fq12_frobenius(&q12, 1)
}

/// The image of `q12` under the square of the Frobenius map, `q12^(p^2)`.
pub fn fq12_to_frobenius_p2(q12: Fq12Elem) -> (r: Fq12Elem)
    ensures
        r == fq12_frobenius_of(q12, 2),
{
    fq12_frobenius(&q12, 2)
}

/// The image of `q12` under the cube of the Frobenius map, `q12^(p^3)`.
pub fn fq12_to_frobenius_p3(q12: Fq12Elem) -> (r: Fq12Elem)
    ensures
        r == fq12_frobenius_of(q12, 3),
{
    fq12_frobenius(&q12, 3)
}

} // verus!
