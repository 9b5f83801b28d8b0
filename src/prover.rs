//! The witness-folded Miller loop.
//!
//! The running value starts at `c_inv` instead of one, and each loop digit
//! multiplies it by `c_inv` or `c` besides squaring it, so that after the
//! loop and the Frobenius corrections the result can be checked against the
//! witness with no final exponentiation.
use crate::bigint::big_mul;
use crate::error::PairingError;
use crate::field::{
    ate_digits, ate_loop_count, base_modulus, bn_p, fq12_mul, fq12_mul_by_034, fq12_mul_by_034_of,
    fq12_mul_of, fq12_pow, fq12_pow_of, fq12_square, fq12_square_of, fq2_mul_by_fp, fq2_mul_by_fp_of,
    g1_x, g1_x_of, g1_y, g1_y_of, g2_prepare, g2_prepare_of, prepared_lines, prepared_lines_of,
    fq12_is_one, fq12_is_one_of, prepared_clone, prepared_infinity_of, prepared_is_infinity,
    Fq12Elem, G1Point, G2Point, LineCoeff, PreparedG2,
};
use crate::setup::PairingPVKey;
use vstd::prelude::*;

verus! {

/// Folding one line into the running value: the line's coefficients are
/// scaled by the coordinates of the group-1 point and multiplied in as a
/// sparse element.
pub open spec fn ell_of(f: Fq12Elem, l: LineCoeff, p: G1Point) -> Fq12Elem {
    fq12_mul_by_034_of(f, fq2_mul_by_fp_of(l.c0, g1_y_of(p)), fq2_mul_by_fp_of(l.c1, g1_x_of(p)), l.c2)
}

/// Folding, in order, the line at `pos` of each of the first `t` terms.
pub open spec fn fold_terms(
    f: Fq12Elem,
    points: Seq<G1Point>,
    lines: Seq<Seq<LineCoeff>>,
    pos: int,
    t: nat,
) -> Fq12Elem
    decreases t,
{
    if t == 0 {
        f
    } else {
        ell_of(fold_terms(f, points, lines, pos, (t - 1) as nat), lines[t - 1][pos], points[t - 1])
    }
}

/// The number of loop steps: every digit below the most significant one.
pub open spec fn loop_steps() -> nat {
    (ate_digits().len() - 1) as nat
}

/// The digit that loop step `k` reads, walking from the most significant
/// digit down.
pub open spec fn loop_digit(k: nat) -> int {
    ate_digits()[ate_digits().len() - 2 - k]
}

/// The lines of each term consumed by the first `k` steps: one doubling
/// line per step, and one addition line for each nonzero digit.
pub open spec fn cursor_after(k: nat) -> nat
    decreases k,
{
    if k == 0 {
        0
    } else {
        cursor_after((k - 1) as nat) + if loop_digit((k - 1) as nat) != 0 {
            2nat
        } else {
            1nat
        }
    }
}

/// The number of lines that each term must supply: those of the loop and
/// one for each of the two Frobenius corrections.
pub open spec fn line_count() -> nat {
    cursor_after(loop_steps()) + 2
}

/// Multiplying by `c_inv` on digit 1 and by `c` on digit -1.
pub open spec fn apply_digit(f: Fq12Elem, c: Fq12Elem, c_inv: Fq12Elem, d: int) -> Fq12Elem {
    if d == 1 {
        fq12_mul_of(f, c_inv)
    } else if d == -1 {
        fq12_mul_of(f, c)
    } else {
        f
    }
}

/// The running value after `k` loop steps.
pub open spec fn loop_value(
    c: Fq12Elem,
    c_inv: Fq12Elem,
    points: Seq<G1Point>,
    lines: Seq<Seq<LineCoeff>>,
    k: nat,
) -> Fq12Elem
    decreases k,
{
    if k == 0 {
        c_inv
    } else {
        let d = loop_digit((k - 1) as nat);
        let pos = cursor_after((k - 1) as nat) as int;
        let f1 = apply_digit(
            fq12_square_of(loop_value(c, c_inv, points, lines, (k - 1) as nat)),
            c,
            c_inv,
            d,
        );
        let f2 = fold_terms(f1, points, lines, pos, points.len());
        if d != 0 {
            fold_terms(f2, points, lines, pos + 1, points.len())
        } else {
            f2
        }
    }
}

/// The value the prover returns: the loop's value times `c_inv^p`, `c^(p^2)`
/// and `wi`, with the two Frobenius-correction lines of each term folded in.
pub open spec fn witness_miller_value(
    c: Fq12Elem,
    c_inv: Fq12Elem,
    wi: Fq12Elem,
    points: Seq<G1Point>,
    lines: Seq<Seq<LineCoeff>>,
) -> Fq12Elem {
    let pos = cursor_after(loop_steps()) as int;
    let f = loop_value(c, c_inv, points, lines, loop_steps());
    let g = fq12_mul_of(
        fq12_mul_of(fq12_mul_of(f, fq12_pow_of(c_inv, bn_p())), fq12_pow_of(c, bn_p() * bn_p())),
        wi,
    );
    fold_terms(fold_terms(g, points, lines, pos, points.len()), points, lines, pos + 1, points.len())
}

/// Whether every term supplies exactly the lines the loop consumes.
pub open spec fn lines_fit(lines: Seq<Seq<LineCoeff>>) -> bool {
    forall|t: int| 0 <= t < lines.len() ==> (#[trigger] lines[t]).len() == line_count()
}

/// The line sequences of prepared points.
pub open spec fn lines_of(qs: Seq<PreparedG2>) -> Seq<Seq<LineCoeff>> {
    qs.map_values(|q: PreparedG2| prepared_lines_of(q))
}

/// The contents of vectors of lines.
pub open spec fn line_views(v: Seq<Vec<LineCoeff>>) -> Seq<Seq<LineCoeff>> {
    v.map_values(|x: Vec<LineCoeff>| x@)
}

proof fn lemma_cursor_bound(k: nat)
    ensures
        cursor_after(k) <= 2 * k,
    decreases k,
{
    if k > 0 {
        lemma_cursor_bound((k - 1) as nat);
    }
}

proof fn lemma_cursor_monotone(j: nat, k: nat)
    requires
        j <= k,
    ensures
        cursor_after(j) + (k - j) <= cursor_after(k),
    decreases k - j,
{
    if j < k {
        lemma_cursor_monotone(j, (k - 1) as nat);
    }
}

/// Folds one line into the running value.
pub fn ell(f: &Fq12Elem, l: &LineCoeff, p: &G1Point) -> (r: Fq12Elem)
    ensures
        r == ell_of(*f, *l, *p),
{
    let c0 = fq2_mul_by_fp(&l.c0, &g1_y(p));
    let c1 = fq2_mul_by_fp(&l.c1, &g1_x(p));
    fq12_mul_by_034(f, &c0, &c1, &l.c2)
}

/// Folds the line at `pos` of every term, in term order.
fn fold_at(f: Fq12Elem, points: &Vec<G1Point>, lines: &Vec<Vec<LineCoeff>>, pos: usize) -> (r:
    Fq12Elem)
    requires
        points@.len() == lines@.len(),
        forall|t: int| 0 <= t < lines@.len() ==> pos < (#[trigger] lines@[t])@.len(),
    ensures
        r == fold_terms(f, points@, line_views(lines@), pos as int, points@.len()),
{
    let mut r = f;
    let mut t: usize = 0;
    while t < points.len()
        invariant
            t <= points@.len(),
            points@.len() == lines@.len(),
            forall|u: int| 0 <= u < lines@.len() ==> pos < (#[trigger] lines@[u])@.len(),
            r == fold_terms(f, points@, line_views(lines@), pos as int, t as nat),
        decreases points@.len() - t,
    {
        r = ell(&r, &lines[t][pos], &points[t]);
        t = t + 1;
    }
    r
}

/// Runs the witness-folded loop over terms whose lines are all given.
fn witness_miller(
    c: &Fq12Elem,
    c_inv: &Fq12Elem,
    wi: &Fq12Elem,
    points: &Vec<G1Point>,
    lines: &Vec<Vec<LineCoeff>>,
) -> (r: Fq12Elem)
    requires
        points@.len() == lines@.len(),
        lines_fit(line_views(lines@)),
    ensures
        r == witness_miller_value(*c, *c_inv, *wi, points@, line_views(lines@)),
{
    let ghost ls = line_views(lines@);
    let digits = ate_loop_count();
    let mut f = *c_inv;
    let mut pos: usize = 0;
    let mut i: usize = digits.len() - 1;
    proof {
        lemma_cursor_monotone(0, loop_steps());
        lemma_cursor_bound(loop_steps());
    }
    while i > 0
        invariant
            digits@.len() == ate_digits().len(),
            forall|j: int| 0 <= j < digits@.len() ==> digits@[j] as int == #[trigger] ate_digits()[j],
            i < digits@.len(),
            pos == cursor_after((digits@.len() - 1 - i) as nat),
            f == loop_value(*c, *c_inv, points@, ls, (digits@.len() - 1 - i) as nat),
            points@.len() == lines@.len(),
            ls == line_views(lines@),
            lines_fit(ls),
        decreases i,
    {
        let ghost k: nat = (digits@.len() - 1 - i) as nat;
        proof {
            lemma_cursor_bound(k);
            lemma_cursor_monotone(k + 1, loop_steps());
            assert forall|t: int| 0 <= t < lines@.len() implies pos + 1 < (#[trigger] lines@[t])@.len() by {
                assert(ls[t] == lines@[t]@);
            }
        }
        let bit = digits[i - 1];
        assert(bit as int == loop_digit(k));
        f = fq12_square(&f);
        if bit == 1 {
            f = fq12_mul(&f, c_inv);
        } else if bit == -1 {
            f = fq12_mul(&f, c);
        }
        f = fold_at(f, points, lines, pos);
        if bit != 0 {
            f = fold_at(f, points, lines, pos + 1);
            pos = pos + 2;
        } else {
            pos = pos + 1;
        }
        i = i - 1;
    }
    proof {
        lemma_cursor_bound(loop_steps());
    }
    let p = base_modulus();
    let p2 = big_mul(&p, &p);
    f = fq12_mul(&f, &fq12_pow(c_inv, &p));
    f = fq12_mul(&f, &fq12_pow(c, &p2));
    f = fq12_mul(&f, wi);
    proof {
        assert forall|t: int| 0 <= t < lines@.len() implies pos + 1 < (#[trigger] lines@[t])@.len() by {
            assert(ls[t] == lines@[t]@);
        }
    }
    f = fold_at(f, points, lines, pos);
    f = fold_at(f, points, lines, pos + 1);
    f
}

/// The lines of each prepared point, checked to be as many as the loop
/// consumes.
fn collect_lines(qs: &Vec<PreparedG2>) -> (r: Option<Vec<Vec<LineCoeff>>>)
    ensures
        r matches Some(v) ==> line_views(v@) == lines_of(qs@),
        r is Some <==> lines_fit(lines_of(qs@)),
{
    let mut out: Vec<Vec<LineCoeff>> = Vec::new();
    let mut t: usize = 0;
    while t < qs.len()
        invariant
            t <= qs@.len(),
            line_views(out@) == lines_of(qs@.subrange(0, t as int)),
            lines_fit(lines_of(qs@.subrange(0, t as int))),
        decreases qs@.len() - t,
    {
        let l = prepared_lines(&qs[t]);
        let ghost prev = out@;
        if l.len() != line_count_exec() {
            assert(lines_of(qs@)[t as int] == l@);
            return None;
        }
        out.push(l);
        proof {
            let sub = qs@.subrange(0, t as int + 1);
            assert(sub.subrange(0, t as int) =~= qs@.subrange(0, t as int));
            assert(lines_of(sub)[t as int] == l@);
            assert forall|u: int| 0 <= u < t implies lines_of(sub)[u] == lines_of(qs@.subrange(0, t as int))[u] by {}
            assert(line_views(prev).len() == prev.len());
            assert forall|u: int| 0 <= u < t implies line_views(out@)[u] == line_views(prev)[u] by {
                assert(line_views(out@)[u] == out@[u]@);
                assert(out@[u] == prev[u]);
                assert(line_views(prev)[u] == prev[u]@);
            }
            assert(line_views(out@)[t as int] == l@);
            assert(line_views(out@) =~= lines_of(sub));
            assert(lines_fit(lines_of(sub))) by {
                assert forall|u: int| 0 <= u < lines_of(sub).len() implies (#[trigger] lines_of(sub)[u]).len() == line_count() by {
                    if u < t {
                        assert(lines_of(sub)[u] == lines_of(qs@.subrange(0, t as int))[u]);
                    }
                }
            }
        }
        t = t + 1;
    }
    assert(qs@.subrange(0, qs@.len() as int) =~= qs@);
    Some(out)
}

/// The number of lines each term must supply.
pub fn line_count_exec() -> (r: usize)
    ensures
        r == line_count(),
{
    let digits = ate_loop_count();
    let mut n: usize = 0;
    let mut i: usize = digits.len() - 1;
    while i > 0
        invariant
            digits@.len() == ate_digits().len(),
            forall|j: int| 0 <= j < digits@.len() ==> digits@[j] as int == #[trigger] ate_digits()[j],
            i < digits@.len(),
            n == cursor_after((digits@.len() - 1 - i) as nat),
            n <= 2 * (digits@.len() - 1 - i),
        decreases i,
    {
        let ghost k: nat = (digits@.len() - 1 - i) as nat;
        assert(digits[i - 1] as int == loop_digit(k));
        if digits[i - 1] != 0 {
            n = n + 2;
        } else {
            n = n + 1;
        }
        i = i - 1;
    }
    n + 2
}

/// Whether some preparation is marked as the point at infinity.
pub open spec fn has_infinity(qs: Seq<PreparedG2>) -> bool {
    exists|i: int| 0 <= i < qs.len() && #[trigger] prepared_infinity_of(qs[i])
}

/// Whether every preparation is either marked as the point at infinity or
/// holds the lines the loop consumes.
pub open spec fn bases_fit(qs: Seq<PreparedG2>) -> bool {
    forall|i: int|
        0 <= i < qs.len() ==> #[trigger] prepared_infinity_of(qs[i])
            || prepared_lines_of(qs[i]).len() == line_count()
}

/// What stops the lines of prepared points from being folded, if anything:
/// a point at infinity first, then a line sequence of the wrong length.
pub open spec fn prepared_status(qs: Seq<PreparedG2>) -> Option<PairingError> {
    if has_infinity(qs) {
        Some(PairingError::PointAtInfinity)
    } else if !lines_fit(lines_of(qs)) {
        Some(PairingError::ArityMismatch)
    } else {
        None
    }
}

/// The result of the dual prover.
pub open spec fn dual_spec(
    eval_points: Seq<G1Point>,
    lines: Seq<PreparedG2>,
    pvk: PairingPVKey,
) -> Result<Fq12Elem, PairingError> {
    if eval_points.len() != 2 || lines.len() != 2 {
        Err(PairingError::ArityMismatch)
    } else if !fq12_is_one_of(fq12_mul_of(pvk.c, pvk.c_inv)) {
        Err(PairingError::MalformedWitness)
    } else {
        match prepared_status(lines) {
            Some(e) => Err(e),
            None => Ok(witness_miller_value(pvk.c, pvk.c_inv, pvk.wi, eval_points, lines_of(lines))),
        }
    }
}

/// The statement of the quadruple prover: the three fixed terms followed by
/// the term of `p4` and `q4`, whose lines the curve library prepares at call time.
pub open spec fn quad_points(eval_points: Seq<G1Point>, p4: G1Point) -> Seq<G1Point> {
    eval_points.push(p4)
}

/// The preparations of the quadruple prover's four terms.
pub open spec fn quad_bases(lines: Seq<PreparedG2>, q4: G2Point) -> Seq<PreparedG2> {
    lines.push(g2_prepare_of(q4))
}

/// The line sequences of the quadruple prover's four terms.
pub open spec fn quad_lines(lines: Seq<PreparedG2>, q4: G2Point) -> Seq<Seq<LineCoeff>> {
    lines_of(quad_bases(lines, q4))
}

/// The result of the quadruple prover.
pub open spec fn quad_spec(
    eval_points: Seq<G1Point>,
    lines: Seq<PreparedG2>,
    p4: G1Point,
    q4: G2Point,
    pvk: PairingPVKey,
) -> Result<Fq12Elem, PairingError> {
    if eval_points.len() != 3 || lines.len() != 3 {
        Err(PairingError::ArityMismatch)
    } else if !fq12_is_one_of(fq12_mul_of(pvk.c, pvk.c_inv)) {
        Err(PairingError::MalformedWitness)
    } else {
        match prepared_status(quad_bases(lines, q4)) {
            Some(e) => Err(e),
            None => Ok(
                witness_miller_value(
                    pvk.c,
                    pvk.c_inv,
                    pvk.wi,
                    quad_points(eval_points, p4),
                    quad_lines(lines, q4),
                ),
            ),
        }
    }
}

/// Whether some preparation is marked as the point at infinity.
fn any_infinity(qs: &Vec<PreparedG2>) -> (r: bool)
    ensures
        r == has_infinity(qs@),
{
    let mut i: usize = 0;
    while i < qs.len()
        invariant
            i <= qs@.len(),
            forall|j: int| 0 <= j < i ==> !prepared_infinity_of(#[trigger] qs@[j]),
        decreases qs@.len() - i,
    {
        if prepared_is_infinity(&qs[i]) {
            return true;
        }
        i = i + 1;
    }
    false
}

/// The lines of prepared points, or what stops them from being folded.
fn checked_lines(qs: &Vec<PreparedG2>) -> (r: Result<Vec<Vec<LineCoeff>>, PairingError>)
    ensures
        match prepared_status(qs@) {
            Some(e) => r == Err::<Vec<Vec<LineCoeff>>, PairingError>(e),
            None => r matches Ok(v) && line_views(v@) == lines_of(qs@),
        },
{
    if any_infinity(qs) {
        return Err(PairingError::PointAtInfinity);
    }
    match collect_lines(qs) {
        Some(v) => Ok(v),
        None => Err(PairingError::ArityMismatch),
    }
}

/// Proving is deterministic: the prover's value depends on the witness, the
/// evaluation points and the line sequences alone, so equal inputs give
/// equal outputs.
pub proof fn lemma_prover_deterministic(
    k1: PairingPVKey,
    k2: PairingPVKey,
    points1: Seq<G1Point>,
    points2: Seq<G1Point>,
    lines1: Seq<Seq<LineCoeff>>,
    lines2: Seq<Seq<LineCoeff>>,
)
    requires
        k1 == k2,
        points1 == points2,
        lines1 == lines2,
    ensures
        witness_miller_value(k1.c, k1.c_inv, k1.wi, points1, lines1) == witness_miller_value(
            k2.c,
            k2.c_inv,
            k2.wi,
            points2,
            lines2,
        ),
{
}

/// Proves pairing-product statements against a residue witness.
pub struct PairingProver;

impl PairingProver {
    /// Proves `e(p1,q1) * e(p2,q2)` against the witness, for two points `q1`,
    /// `q2` whose lines are prepared. `ArityMismatch` unless there are two
    /// evaluation points and two preparations; `MalformedWitness` unless
    /// `c * c_inv` is one; `PointAtInfinity` for a preparation of the point
    /// at infinity; `ArityMismatch` for a preparation without the lines the
    /// loop consumes.
    pub fn prove_dual_pairing(
        eval_points: Vec<G1Point>,
        lines: &Vec<PreparedG2>,
        pvk: &PairingPVKey,
    ) -> (r: Result<Fq12Elem, PairingError>)
        ensures
            r == dual_spec(eval_points@, lines@, *pvk),
            !fq12_is_one_of(fq12_mul_of(pvk.c, pvk.c_inv)) ==> r is Err,
    {
        if eval_points.len() != 2 || lines.len() != 2 {
            return Err(PairingError::ArityMismatch);
        }
        if !fq12_is_one(&fq12_mul(&pvk.c, &pvk.c_inv)) {
            return Err(PairingError::MalformedWitness);
        }
        let ls = checked_lines(lines)?;
        assert(line_views(ls@).len() == ls@.len());
        Ok(witness_miller(&pvk.c, &pvk.c_inv, &pvk.wi, &eval_points, &ls))
    }

    /// Proves `e(p1,q1) * e(p2,q2) * e(p3,q3) * e(p4,q4)` against the witness,
    /// for three points `q1`, `q2`, `q3` whose lines are prepared and a point
    /// `q4` given at call time. The errors are those of the dual prover, for
    /// three evaluation points and three preparations, with `q4`'s
    /// preparation checked as the others.
    pub fn prove_quad_pairing(
        eval_points: Vec<G1Point>,
        lines: &Vec<PreparedG2>,
        p4: G1Point,
        q4: G2Point,
        pvk: &PairingPVKey,
    ) -> (r: Result<Fq12Elem, PairingError>)
        ensures
            r == quad_spec(eval_points@, lines@, p4, q4, *pvk),
            !fq12_is_one_of(fq12_mul_of(pvk.c, pvk.c_inv)) ==> r is Err,
    {
        if eval_points.len() != 3 || lines.len() != 3 {
            return Err(PairingError::ArityMismatch);
        }
        if !fq12_is_one(&fq12_mul(&pvk.c, &pvk.c_inv)) {
            return Err(PairingError::MalformedWitness);
        }
        let mut bases: Vec<PreparedG2> = Vec::new();
        let mut i: usize = 0;
        while i < 3
            invariant
                i <= 3,
                lines@.len() == 3,
                bases@ == lines@.subrange(0, i as int),
            decreases 3 - i,
        {
            bases.push(prepared_clone(&lines[i]));
            i = i + 1;
            assert(bases@ =~= lines@.subrange(0, i as int));
        }
        bases.push(g2_prepare(&q4));
        assert(bases@ =~= quad_bases(lines@, q4));
        let ls = checked_lines(&bases)?;
        assert(line_views(ls@).len() == ls@.len());
        let mut all_points = eval_points;
        all_points.push(p4);
        Ok(witness_miller(&pvk.c, &pvk.c_inv, &pvk.wi, &all_points, &ls))
    }
}

} // verus!
