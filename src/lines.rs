//! Line evaluation in affine form.
use crate::field::{
    fq2_from_base, fq2_from_base_of, fq2_mul_by_fp, fq2_mul_by_fp_of, fq2_neg, fq2_neg_of, g1_x,
    g1_x_of, g1_y, g1_y_of, Fq2Elem, G1Point,
};
use vstd::prelude::*;

verus! {

/// The coefficients of the line `y = alpha * x + bias` evaluated at `point`:
/// `-bias`, `-alpha * x_P` and `y_P`, those of `w^0`, `w^2` and `w^3`.
pub fn line_evaluation(alpha: Fq2Elem, bias: Fq2Elem, point: G1Point) -> (r: (
    Fq2Elem,
    Fq2Elem,
    Fq2Elem,
))
    ensures
        r == (
            fq2_neg_of(bias),
            fq2_mul_by_fp_of(fq2_neg_of(alpha), g1_x_of(point)),
            fq2_from_base_of(g1_y_of(point)),
        ),
{
    let neg_alpha = fq2_mul_by_fp(&fq2_neg(&alpha), &g1_x(&point));
    (fq2_neg(&bias), neg_alpha, fq2_from_base(&g1_y(&point)))
}

} // verus!
