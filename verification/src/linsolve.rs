//! Solvers for the effective-mass system K·λ = b.
//!
//! The direct path factors K by Cholesky decomposition and solves by
//! two triangular substitutions; the iterative path is a
//! conjugate-gradient loop with a warm start, a residual threshold and
//! an iteration cap.  Both paths are pinned exactly by spec-level
//! recursions over the same fixed-point operations: the factor's
//! entries and the substitution results mirror the decomposition, and
//! the factorization succeeds precisely when every pivot it meets is
//! positive — the singular or non-positive-definite case, fatal for the
//! tick.  The iterative path returns exactly the warm-started
//! recursion's accepted iterate, and converges precisely when some step
//! within the cap brings the true residual under the threshold.  A zero
//! right-hand side provably solves to an exactly zero multiplier
//! vector, which is what the steady-state law rests on.

use vstd::prelude::*;
use crate::fixed::{
    Fix, spec_sub, spec_mul, spec_div, spec_sqrt, lemma_isqrt_bounds, lemma_div_zero,
    lemma_mul_zero,
};
use crate::matrix::{
    Matrix, all_zero, dot_fold, matvec_of, rows_of, seq_add, seq_scale, seq_sub, vec_add, vec_copy,
    vec_dot, vec_scale,
    vec_sub, vec_zeros,
};

verus! {

/// Iteration cap of the conjugate-gradient loop; hitting it makes the
/// tick fail as non-convergent rather than looping forever.
pub const CG_ITERATION_CAP: usize = 4096;

/// Residual threshold (raw squared norm) at which the
/// conjugate-gradient loop accepts its iterate.
pub const CG_RESIDUAL_SQ: i64 = 6;

/// Raw value of K[i][j] minus the first `tt` products of rows i and j
/// of the factor: the running pivot/entry sum of the decomposition.
pub open spec fn chol_sum(k: Seq<Seq<Fix>>, i: int, j: int, tt: int) -> int
    decreases i, j, tt,
{
    if tt <= 0 || j < 0 || tt > j || j > i {
        k[i][j]@
    } else {
        spec_sub(
            chol_sum(k, i, j, tt - 1),
            spec_mul(chol_at(k, i, tt - 1), chol_at(k, j, tt - 1)),
        )
    }
}

/// Raw value of entry (i, j), j ≤ i, of the lower Cholesky factor: the
/// square root of the exhausted sum on the diagonal, its quotient by
/// the pivot below it.
pub open spec fn chol_at(k: Seq<Seq<Fix>>, i: int, j: int) -> int
    decreases i, j, j + 1,
{
    if j < 0 || i < j {
        0
    } else {
        let s = chol_sum(k, i, j, j);
        if i == j {
            spec_sqrt(s)
        } else {
            spec_div(s, chol_at(k, j, j))
        }
    }
}

/// The factorization succeeds exactly when every pivot it meets is
/// positive.
pub open spec fn chol_ok(k: Seq<Seq<Fix>>) -> bool {
    forall|d: int| 0 <= d < k.len() ==> chol_sum(k, d, d, d) >= 1
}

/// The full lower Cholesky factor of a row-sequence matrix: the
/// recursion's entries below the diagonal, zeros above it.
pub open spec fn chol_rows(k: Seq<Seq<Fix>>) -> Seq<Seq<Fix>> {
    Seq::new(
        k.len(),
        |i: int|
            Seq::new(
                k.len(),
                |j: int| Fix { raw: (if j <= i { chol_at(k, i, j) } else { 0 }) as i64 },
            ),
    )
}

/// Raw value of the forward-substitution running sum for row i after
/// the first `tt` columns.
pub open spec fn fsub_sum(l: Seq<Seq<Fix>>, b: Seq<Fix>, i: int, tt: int) -> int
    decreases i, tt,
{
    if tt <= 0 || i < 0 || tt > i {
        b[i]@
    } else {
        spec_sub(fsub_sum(l, b, i, tt - 1), spec_mul(l[i][tt - 1]@, fsub_at(l, b, tt - 1)))
    }
}

/// Raw value of entry i of the forward-substitution solution of
/// L·y = b.
pub open spec fn fsub_at(l: Seq<Seq<Fix>>, b: Seq<Fix>, i: int) -> int
    decreases i, i + 1,
{
    if i < 0 {
        0
    } else {
        spec_div(fsub_sum(l, b, i, i), l[i][i]@)
    }
}

/// Raw value of the backward-substitution running sum for row i after
/// the columns below `tt`, in an m-row system.
pub open spec fn bsub_sum(l: Seq<Seq<Fix>>, y: Seq<Fix>, m: int, i: int, tt: int) -> int
    decreases m - i, tt,
{
    if tt <= i + 1 || i < 0 || tt > m {
        y[i]@
    } else {
        spec_sub(
            bsub_sum(l, y, m, i, tt - 1),
            spec_mul(l[tt - 1][i]@, bsub_at(l, y, m, tt - 1)),
        )
    }
}

/// Raw value of entry i of the backward-substitution solution of
/// Lᵗ·x = y in an m-row system.
pub open spec fn bsub_at(l: Seq<Seq<Fix>>, y: Seq<Fix>, m: int, i: int) -> int
    decreases m - i, m + 1,
{
    if i < 0 || i >= m {
        0
    } else {
        spec_div(bsub_sum(l, y, m, i, m), l[i][i]@)
    }
}

/// The forward-substitution solution as a sequence.
pub open spec fn fsub_seq(l: Seq<Seq<Fix>>, b: Seq<Fix>) -> Seq<Fix> {
    Seq::new(b.len(), |i: int| Fix { raw: fsub_at(l, b, i) as i64 })
}

/// The solution of K·λ = b through the factor `l`: backward
/// substitution applied to the forward-substitution result.
pub open spec fn solve_of(l: Seq<Seq<Fix>>, b: Seq<Fix>) -> Seq<Fix> {
    Seq::new(b.len(), |i: int| Fix { raw: bsub_at(l, fsub_seq(l, b), b.len() as int, i) as i64 })
}

/// Raw squared norm of the true residual b − K·x of an iterate.
pub open spec fn cg_residual_sq(a: Seq<Seq<Fix>>, b: Seq<Fix>, x: Seq<Fix>, inner: int) -> int {
    let res = seq_sub(b, matvec_of(a, x, inner));
    dot_fold(res, res, res.len() as int)
}

/// The conjugate-gradient state after `it` warm-started steps:
/// (iterate, incremental residual, search direction).  A step with zero
/// incremental residual or zero curvature leaves the state as is; the
/// loop stops there.
pub open spec fn cg_state(a: Seq<Seq<Fix>>, b: Seq<Fix>, guess: Seq<Fix>, inner: int, it: int) -> (
    Seq<Fix>,
    Seq<Fix>,
    Seq<Fix>,
)
    decreases it,
{
    if it <= 0 {
        let res = seq_sub(b, matvec_of(a, guess, inner));
        (guess, res, res)
    } else {
        let prev = cg_state(a, b, guess, inner, it - 1);
        let lambda = prev.0;
        let res = prev.1;
        let p = prev.2;
        let rr = dot_fold(res, res, res.len() as int);
        let ap = matvec_of(a, p, inner);
        let pap = dot_fold(p, ap, p.len() as int);
        if rr == 0 || pap == 0 {
            prev
        } else {
            let alpha = spec_div(rr, pap);
            let lambda2 = seq_add(lambda, seq_scale(p, alpha));
            let res2 = seq_sub(res, seq_scale(ap, alpha));
            let rr2 = dot_fold(res2, res2, res2.len() as int);
            let beta = spec_div(rr2, rr);
            (lambda2, res2, seq_add(res2, seq_scale(p, beta)))
        }
    }
}

/// The step-`it` iterate is accepted: its true residual is within the
/// threshold.
pub open spec fn cg_accepts(a: Seq<Seq<Fix>>, b: Seq<Fix>, guess: Seq<Fix>, inner: int, it: int) -> bool {
    cg_residual_sq(a, b, cg_state(a, b, guess, inner, it).0, inner) <= CG_RESIDUAL_SQ as int
}

/// The loop stalls at step `it`: the incremental residual or the
/// curvature along the search direction truncates to zero, so no
/// further step can be taken.
pub open spec fn cg_stalls(a: Seq<Seq<Fix>>, b: Seq<Fix>, guess: Seq<Fix>, inner: int, it: int) -> bool {
    let st = cg_state(a, b, guess, inner, it);
    let rr = dot_fold(st.1, st.1, st.1.len() as int);
    let ap = matvec_of(a, st.2, inner);
    rr == 0 || dot_fold(st.2, ap, st.2.len() as int) == 0
}

/// The loop reaches step `it`: no earlier step was accepted or stalled.
pub open spec fn cg_reaches(a: Seq<Seq<Fix>>, b: Seq<Fix>, guess: Seq<Fix>, inner: int, it: int) -> bool
    decreases it,
{
    if it <= 0 {
        true
    } else {
        cg_reaches(a, b, guess, inner, it - 1) && !cg_accepts(a, b, guess, inner, it - 1)
            && !cg_stalls(a, b, guess, inner, it - 1)
    }
}

/// The warm-started iteration converges: some step within the cap is
/// reached and accepted.
pub open spec fn cg_converges(a: Seq<Seq<Fix>>, b: Seq<Fix>, guess: Seq<Fix>, inner: int) -> bool {
    exists|it: int|
        0 <= it < CG_ITERATION_CAP as int && cg_reaches(a, b, guess, inner, it) && #[trigger] cg_accepts(
            a,
            b,
            guess,
            inner,
            it,
        )
}

/// The step at which the iteration accepts; unique when it exists.
pub open spec fn cg_accept_index(a: Seq<Seq<Fix>>, b: Seq<Fix>, guess: Seq<Fix>, inner: int) -> int {
    choose|it: int|
        0 <= it < CG_ITERATION_CAP as int && cg_reaches(a, b, guess, inner, it) && #[trigger] cg_accepts(
            a,
            b,
            guess,
            inner,
            it,
        )
}

/// The accepted iterate of a converging warm-started iteration.
pub open spec fn cg_result(a: Seq<Seq<Fix>>, b: Seq<Fix>, guess: Seq<Fix>, inner: int) -> Seq<Fix> {
    cg_state(a, b, guess, inner, cg_accept_index(a, b, guess, inner)).0
}

/// Every step before a reached one was neither accepted nor stalled.
proof fn lemma_cg_reaches_prefix(
    a: Seq<Seq<Fix>>,
    b: Seq<Fix>,
    guess: Seq<Fix>,
    inner: int,
    it1: int,
    it2: int,
)
    requires
        0 <= it1 < it2,
        cg_reaches(a, b, guess, inner, it2),
    ensures
        cg_reaches(a, b, guess, inner, it1),
        !cg_accepts(a, b, guess, inner, it1),
        !cg_stalls(a, b, guess, inner, it1),
    decreases it2,
{
    if it1 < it2 - 1 {
        lemma_cg_reaches_prefix(a, b, guess, inner, it1, it2 - 1);
    }
}

/// At most one step is both reached and accepted, so the accepted
/// iterate is well defined.
proof fn lemma_cg_accept_unique(
    a: Seq<Seq<Fix>>,
    b: Seq<Fix>,
    guess: Seq<Fix>,
    inner: int,
    it1: int,
    it2: int,
)
    requires
        0 <= it1,
        0 <= it2,
        cg_reaches(a, b, guess, inner, it1) && cg_accepts(a, b, guess, inner, it1),
        cg_reaches(a, b, guess, inner, it2) && cg_accepts(a, b, guess, inner, it2),
    ensures
        it1 == it2,
{
    if it1 < it2 {
        lemma_cg_reaches_prefix(a, b, guess, inner, it1, it2);
    }
    if it2 < it1 {
        lemma_cg_reaches_prefix(a, b, guess, inner, it2, it1);
    }
}

/// Lower Cholesky factor of a square matrix, entry by entry equal to
/// the decomposition recursion; `None` reports a singular or
/// non-positive-definite system, exactly when a pivot is not positive.
pub fn cholesky_factor(k: &Matrix) -> (r: Option<Matrix>)
    requires
        k.wf(),
        k.rows() == k.cols,
    ensures
        r is Some <==> chol_ok(rows_of(*k)),
        match r {
            Some(l) => {
                &&& l.wf()
                &&& l.rows() == k.rows()
                &&& l.cols == k.cols
                &&& forall|a: int, b: int|
                    0 <= b <= a < l.rows() ==> #[trigger] l.at(a, b) == chol_at(rows_of(*k), a, b)
                &&& forall|d: int| 0 <= d < l.rows() ==> #[trigger] l.at(d, d) >= 1
                &&& forall|a: int, b: int|
                    0 <= a < l.rows() && a < b < l.rows() ==> #[trigger] l.at(a, b) == 0
                &&& rows_of(l) == chol_rows(rows_of(*k))
            },
            None => true,
        },
{
    let m: usize = k.data.len();
    let mut l: Matrix = Matrix::zeros(m, m);
    let mut i: usize = 0;
    while i < m
        invariant
            k.wf(),
            m == k.rows(),
            m == k.cols,
            l.wf(),
            l.rows() == m,
            l.cols == m,
            i <= m,
            forall|a: int, b: int|
                0 <= b <= a < i ==> #[trigger] l.at(a, b) == chol_at(rows_of(*k), a, b),
            forall|d: int| 0 <= d < i ==> chol_sum(rows_of(*k), d, d, d) >= 1,
            forall|d: int| 0 <= d < i ==> #[trigger] l.at(d, d) >= 1,
            forall|a: int, b: int| 0 <= a < m && a < b < m ==> #[trigger] l.at(a, b) == 0,
        decreases m - i,
    {
        let mut j: usize = 0;
        while j <= i
            invariant
                k.wf(),
                m == k.rows(),
                m == k.cols,
                l.wf(),
                l.rows() == m,
                l.cols == m,
                i < m,
                j <= i + 1,
                forall|a: int, b: int|
                    0 <= b <= a < i ==> #[trigger] l.at(a, b) == chol_at(rows_of(*k), a, b),
                forall|b: int|
                    0 <= b < j ==> #[trigger] l.at(i as int, b) == chol_at(rows_of(*k), i as int, b),
                forall|d: int| 0 <= d < i ==> chol_sum(rows_of(*k), d, d, d) >= 1,
                j == i + 1 ==> chol_sum(rows_of(*k), i as int, i as int, i as int) >= 1,
                forall|d: int| 0 <= d < i ==> #[trigger] l.at(d, d) >= 1,
                forall|a: int, b: int| 0 <= a < m && a < b < m ==> #[trigger] l.at(a, b) == 0,
                j == i + 1 ==> l.at(i as int, i as int) >= 1,
            decreases i + 1 - j,
        {
            let mut s: Fix = k.get(i, j);
            let mut t: usize = 0;
            while t < j
                invariant
                    k.wf(),
                    m == k.rows(),
                    m == k.cols,
                    l.wf(),
                    l.rows() == m,
                    l.cols == m,
                    i < m,
                    j <= i,
                    t <= j,
                    forall|a: int, b: int|
                        0 <= b <= a < i ==> #[trigger] l.at(a, b) == chol_at(rows_of(*k), a, b),
                    forall|b: int|
                        0 <= b < j ==> #[trigger] l.at(i as int, b) == chol_at(
                            rows_of(*k),
                            i as int,
                            b,
                        ),
                    s@ == chol_sum(rows_of(*k), i as int, j as int, t as int),
                decreases j - t,
            {
                s = s.sub(l.get(i, t).mul(l.get(j, t)));
                t = t + 1;
            }
            if i == j {
                if s.raw <= 0 {
                    proof {
                        assert(chol_sum(rows_of(*k), i as int, i as int, i as int) < 1);
                        assert(!chol_ok(rows_of(*k)));
                    }
                    return None;
                }
                proof {
                    lemma_isqrt_bounds(s@ * 65536);
                }
                let d: Fix = s.sqrt();
                proof {
                    assert(d@ >= 1);
                }
                l.set(i, i, d);
            } else {
                let piv: Fix = l.get(j, j);
                l.set(i, j, s.div(piv));
            }
            j = j + 1;
        }
        i = i + 1;
    }
    proof {
        assert forall|a: int| 0 <= a < m implies rows_of(l)[a] =~= chol_rows(rows_of(*k))[a] by {
            assert forall|b: int|
                0 <= b < m implies rows_of(l)[a][b] == chol_rows(rows_of(*k))[a][b] by {
                if b <= a {
                    assert(l.at(a, b) == chol_at(rows_of(*k), a, b));
                } else {
                    assert(l.at(a, b) == 0);
                }
            }
        }
        assert(rows_of(l) =~= chol_rows(rows_of(*k)));
    }
    Some(l)
}

/// Solves L·y = b by forward substitution, entry by entry equal to the
/// substitution recursion.  A zero right-hand side yields an exactly
/// zero result.
pub fn forward_subst(l: &Matrix, b: &Vec<Fix>) -> (r: Vec<Fix>)
    requires
        l.wf(),
        l.rows() == l.cols,
        b@.len() == l.rows(),
        forall|d: int| 0 <= d < l.rows() ==> #[trigger] l.at(d, d) != 0,
    ensures
        r@.len() == b@.len(),
        forall|i: int| 0 <= i < r@.len() ==> (#[trigger] r@[i])@ == fsub_at(rows_of(*l), b@, i),
        all_zero(b@) ==> all_zero(r@),
{
    let m: usize = l.data.len();
    let mut y: Vec<Fix> = Vec::new();
    let mut i: usize = 0;
    while i < m
        invariant
            l.wf(),
            m == l.rows(),
            m == l.cols,
            b@.len() == m,
            forall|d: int| 0 <= d < m ==> #[trigger] l.at(d, d) != 0,
            i <= m,
            y@.len() == i,
            forall|i2: int| 0 <= i2 < i ==> (#[trigger] y@[i2])@ == fsub_at(rows_of(*l), b@, i2),
            all_zero(b@) ==> all_zero(y@),
        decreases m - i,
    {
        let mut s: Fix = b[i];
        let mut t: usize = 0;
        while t < i
            invariant
                l.wf(),
                m == l.rows(),
                m == l.cols,
                b@.len() == m,
                i < m,
                t <= i,
                y@.len() == i,
                forall|i2: int|
                    0 <= i2 < i ==> (#[trigger] y@[i2])@ == fsub_at(rows_of(*l), b@, i2),
                all_zero(b@) ==> all_zero(y@),
                s@ == fsub_sum(rows_of(*l), b@, i as int, t as int),
                all_zero(b@) ==> s@ == 0,
            decreases i - t,
        {
            proof {
                if all_zero(b@) {
                    lemma_mul_zero(l.at(i as int, t as int));
                }
            }
            s = s.sub(l.get(i, t).mul(y[t]));
            t = t + 1;
        }
        let piv: Fix = l.get(i, i);
        proof {
            if all_zero(b@) {
                lemma_div_zero(piv@);
            }
        }
        y.push(s.div(piv));
        i = i + 1;
    }
    y
}

/// Solves Lᵗ·x = y by backward substitution, entry by entry equal to
/// the substitution recursion.  A zero right-hand side yields an
/// exactly zero result.
pub fn backward_subst(l: &Matrix, y: &Vec<Fix>) -> (r: Vec<Fix>)
    requires
        l.wf(),
        l.rows() == l.cols,
        y@.len() == l.rows(),
        forall|d: int| 0 <= d < l.rows() ==> #[trigger] l.at(d, d) != 0,
    ensures
        r@.len() == y@.len(),
        forall|i: int|
            0 <= i < r@.len() ==> (#[trigger] r@[i])@ == bsub_at(rows_of(*l), y@, y@.len() as int, i),
        all_zero(y@) ==> all_zero(r@),
{
    let m: usize = l.data.len();
    let mut x: Vec<Fix> = vec_zeros(m);
    let mut done: usize = 0;
    while done < m
        invariant
            l.wf(),
            m == l.rows(),
            m == l.cols,
            y@.len() == m,
            forall|d: int| 0 <= d < m ==> #[trigger] l.at(d, d) != 0,
            done <= m,
            x@.len() == m,
            forall|i2: int|
                m - done <= i2 < m ==> (#[trigger] x@[i2])@ == bsub_at(rows_of(*l), y@, m as int, i2),
            all_zero(y@) ==> all_zero(x@),
        decreases m - done,
    {
        let i: usize = m - 1 - done;
        let mut s: Fix = y[i];
        let mut t: usize = i + 1;
        while t < m
            invariant
                l.wf(),
                m == l.rows(),
                m == l.cols,
                y@.len() == m,
                i < m,
                i == m - 1 - done,
                done < m,
                i < t <= m,
                x@.len() == m,
                forall|i2: int|
                    m - done <= i2 < m ==> (#[trigger] x@[i2])@ == bsub_at(
                        rows_of(*l),
                        y@,
                        m as int,
                        i2,
                    ),
                all_zero(y@) ==> all_zero(x@),
                s@ == bsub_sum(rows_of(*l), y@, m as int, i as int, t as int),
                all_zero(y@) ==> s@ == 0,
            decreases m - t,
        {
            proof {
                if all_zero(y@) {
                    lemma_mul_zero(l.at(t as int, i as int));
                }
            }
            s = s.sub(l.get(t, i).mul(x[t]));
            t = t + 1;
        }
        let piv: Fix = l.get(i, i);
        proof {
            if all_zero(y@) {
                lemma_div_zero(piv@);
            }
        }
        x.set(i, s.div(piv));
        done = done + 1;
    }
    x
}

/// Solves K·λ = b through an existing Cholesky factor, the result
/// pinned entry by entry by the two substitution recursions.  A zero
/// right-hand side yields an exactly zero multiplier vector.
pub fn solve_factored(l: &Matrix, b: &Vec<Fix>) -> (r: Vec<Fix>)
    requires
        l.wf(),
        l.rows() == l.cols,
        b@.len() == l.rows(),
        forall|d: int| 0 <= d < l.rows() ==> #[trigger] l.at(d, d) != 0,
    ensures
        r@.len() == b@.len(),
        r@ == solve_of(rows_of(*l), b@),
        all_zero(b@) ==> all_zero(r@),
{
    let y: Vec<Fix> = forward_subst(l, b);
    proof {
        assert(y@ =~= fsub_seq(rows_of(*l), b@));
    }
    let x = backward_subst(l, &y);
    proof {
        assert(x@ =~= solve_of(rows_of(*l), b@));
    }
    x
}

/// Solves K·λ = b iteratively by conjugate gradient from a warm-start
/// guess: exactly the warm-started recursion's accepted iterate, or
/// `None` — the non-convergent case — precisely when no step within the
/// cap is reached and accepted.
pub fn cg_solve(a: &Matrix, b: &Vec<Fix>, guess: &Vec<Fix>) -> (r: Option<Vec<Fix>>)
    requires
        a.wf(),
        a.rows() == a.cols,
        b@.len() == a.rows(),
        guess@.len() == a.rows(),
    ensures
        r is Some <==> cg_converges(rows_of(*a), b@, guess@, a.cols as int),
        match r {
            Some(x) => {
                &&& x@.len() == b@.len()
                &&& x@ == cg_result(rows_of(*a), b@, guess@, a.cols as int)
                &&& cg_residual_sq(rows_of(*a), b@, x@, a.cols as int) <= CG_RESIDUAL_SQ as int
            },
            None => true,
        },
{
    let mut lambda: Vec<Fix> = vec_copy(guess);
    let ap0: Vec<Fix> = a.mul_vec(&lambda);
    let mut res: Vec<Fix> = vec_sub(b, &ap0);
    let mut p: Vec<Fix> = vec_copy(&res);
    let mut iter: usize = 0;
    while iter < CG_ITERATION_CAP
        invariant
            a.wf(),
            a.rows() == a.cols,
            b@.len() == a.rows(),
            guess@.len() == a.rows(),
            lambda@.len() == a.rows(),
            res@.len() == a.rows(),
            p@.len() == a.rows(),
            iter <= CG_ITERATION_CAP,
            cg_reaches(rows_of(*a), b@, guess@, a.cols as int, iter as int),
            lambda@ == cg_state(rows_of(*a), b@, guess@, a.cols as int, iter as int).0,
            res@ == cg_state(rows_of(*a), b@, guess@, a.cols as int, iter as int).1,
            p@ == cg_state(rows_of(*a), b@, guess@, a.cols as int, iter as int).2,
        decreases CG_ITERATION_CAP - iter,
    {
        let res_true: Vec<Fix> = vec_sub(b, &a.mul_vec(&lambda));
        let rr_true: Fix = vec_dot(&res_true, &res_true);
        if rr_true.raw <= CG_RESIDUAL_SQ {
            proof {
                assert(cg_accepts(rows_of(*a), b@, guess@, a.cols as int, iter as int));
                assert(cg_converges(rows_of(*a), b@, guess@, a.cols as int));
                let accepted = cg_accept_index(rows_of(*a), b@, guess@, a.cols as int);
                lemma_cg_accept_unique(
                    rows_of(*a),
                    b@,
                    guess@,
                    a.cols as int,
                    iter as int,
                    accepted,
                );
            }
            return Some(lambda);
        }
        let rr: Fix = vec_dot(&res, &res);
        let ap: Vec<Fix> = a.mul_vec(&p);
        let pap: Fix = vec_dot(&p, &ap);
        if rr.raw == 0 || pap.raw == 0 {
            proof {
                lemma_cg_no_convergence_from_stall(
                    rows_of(*a),
                    b@,
                    guess@,
                    a.cols as int,
                    iter as int,
                );
            }
            return None;
        }
        let alpha: Fix = rr.div(pap);
        lambda = vec_add(&lambda, &vec_scale(&p, alpha));
        res = vec_sub(&res, &vec_scale(&ap, alpha));
        let rr_new: Fix = vec_dot(&res, &res);
        let beta: Fix = rr_new.div(rr);
        p = vec_add(&res, &vec_scale(&p, beta));
        iter = iter + 1;
    }
    proof {
        assert forall|it: int|
            0 <= it < CG_ITERATION_CAP as int implies !(cg_reaches(
            rows_of(*a),
            b@,
            guess@,
            a.cols as int,
            it,
        ) && cg_accepts(rows_of(*a), b@, guess@, a.cols as int, it)) by {
            lemma_cg_reaches_prefix(rows_of(*a), b@, guess@, a.cols as int, it, iter as int);
        }
    }
    None
}

/// A step that stalls unaccepted blocks convergence: earlier steps were
/// already rejected, and later steps are unreachable past the stall.
proof fn lemma_cg_no_convergence_from_stall(
    a: Seq<Seq<Fix>>,
    b: Seq<Fix>,
    guess: Seq<Fix>,
    inner: int,
    it0: int,
)
    requires
        0 <= it0,
        cg_reaches(a, b, guess, inner, it0),
        !cg_accepts(a, b, guess, inner, it0),
        cg_stalls(a, b, guess, inner, it0),
    ensures
        !cg_converges(a, b, guess, inner),
{
    assert forall|it: int|
        0 <= it < CG_ITERATION_CAP as int implies !(cg_reaches(a, b, guess, inner, it)
        && cg_accepts(a, b, guess, inner, it)) by {
        if it < it0 {
            lemma_cg_reaches_prefix(a, b, guess, inner, it, it0);
        } else if it > it0 {
            if cg_reaches(a, b, guess, inner, it) {
                lemma_cg_reaches_prefix(a, b, guess, inner, it0, it);
            }
        }
    }
}

} // verus!
