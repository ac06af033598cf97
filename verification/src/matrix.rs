//! Dense fixed-point matrices and vectors.
//!
//! The per-tick linear system (Jacobian, inverse-mass matrix, bias
//! vectors, effective constraint-space mass) lives here.  A matrix is a
//! row list; a vector is a plain `Vec<Fix>`.  Products and sums are
//! pinned entry by entry: an entry of a product equals the left-to-right
//! fixed-point fold of its defining sum, truncation and saturation
//! included, so every solver stage above this layer has an exact
//! functional contract.

use vstd::prelude::*;
use crate::fixed::{Fix, spec_add, spec_sub, spec_neg, spec_mul, spec_div, lemma_mul_zero};

verus! {

/// A dense matrix of fixed-point entries, stored as rows.
#[derive(Clone, Debug)]
pub struct Matrix {
    /// The rows; each inner vector is one row of width `cols`.
    pub data: Vec<Vec<Fix>>,
    /// Width of every row, kept explicitly so it survives zero rows.
    pub cols: usize,
}

/// Left-to-right fixed-point fold of sum_{t < k} a[t] * b[t].
pub open spec fn dot_fold(a: Seq<Fix>, b: Seq<Fix>, k: int) -> int
    decreases k,
{
    if k <= 0 {
        0
    } else {
        spec_add(dot_fold(a, b, k - 1), spec_mul(a[k - 1]@, b[k - 1]@))
    }
}

/// Column `j` of a matrix, as a sequence.
pub open spec fn col(m: Matrix, j: int) -> Seq<Fix> {
    Seq::new(m.data@.len(), |i: int| m.data@[i]@[j])
}

/// The matrix as a sequence of row sequences: the value every
/// matrix-producing operation is pinned against.
pub open spec fn rows_of(m: Matrix) -> Seq<Seq<Fix>> {
    Seq::new(m.data@.len(), |i: int| m.data@[i]@)
}

/// Column `j` of a row-sequence matrix.
pub open spec fn col_of(b: Seq<Seq<Fix>>, j: int) -> Seq<Fix> {
    Seq::new(b.len(), |i: int| b[i][j])
}

/// Transpose of a row-sequence matrix of the given width.
pub open spec fn transpose_of(a: Seq<Seq<Fix>>, cols: int) -> Seq<Seq<Fix>> {
    Seq::new(cols as nat, |i: int| Seq::new(a.len(), |j: int| a[j][i]))
}

/// Product of row-sequence matrices: entry (i, j) is the fixed-point
/// fold of row i of `a` against column j of `b`, over `inner` terms.
pub open spec fn matmul_of(a: Seq<Seq<Fix>>, b: Seq<Seq<Fix>>, inner: int, bcols: int) -> Seq<
    Seq<Fix>,
> {
    Seq::new(
        a.len(),
        |i: int|
            Seq::new(bcols as nat, |j: int| Fix { raw: dot_fold(a[i], col_of(b, j), inner) as i64 }),
    )
}

/// Product of a row-sequence matrix with a vector.
pub open spec fn matvec_of(a: Seq<Seq<Fix>>, v: Seq<Fix>, inner: int) -> Seq<Fix> {
    Seq::new(a.len(), |i: int| Fix { raw: dot_fold(a[i], v, inner) as i64 })
}

/// Entrywise fixed-point sum of two sequences.
pub open spec fn seq_add(a: Seq<Fix>, b: Seq<Fix>) -> Seq<Fix> {
    Seq::new(a.len(), |i: int| Fix { raw: spec_add(a[i]@, b[i]@) as i64 })
}

/// Entrywise fixed-point difference of two sequences.
pub open spec fn seq_sub(a: Seq<Fix>, b: Seq<Fix>) -> Seq<Fix> {
    Seq::new(a.len(), |i: int| Fix { raw: spec_sub(a[i]@, b[i]@) as i64 })
}

/// Entrywise fixed-point negation of a sequence.
pub open spec fn seq_neg(a: Seq<Fix>) -> Seq<Fix> {
    Seq::new(a.len(), |i: int| Fix { raw: spec_neg(a[i]@) as i64 })
}

/// A sequence scaled entrywise by a fixed-point factor.
pub open spec fn seq_scale(a: Seq<Fix>, k: int) -> Seq<Fix> {
    Seq::new(a.len(), |i: int| Fix { raw: spec_mul(a[i]@, k) as i64 })
}

/// A sequence divided entrywise by a nonzero fixed-point scalar.
pub open spec fn seq_div(a: Seq<Fix>, d: int) -> Seq<Fix>
    recommends
        d != 0,
{
    Seq::new(a.len(), |i: int| Fix { raw: spec_div(a[i]@, d) as i64 })
}

impl Matrix {
    /// Row count.
    pub open spec fn rows(self) -> int {
        self.data@.len() as int
    }

    /// Every row has width `cols`.
    pub open spec fn wf(self) -> bool {
        forall|i: int| 0 <= i < self.data@.len() ==> (#[trigger] self.data@[i])@.len() == self.cols
    }

    /// Raw value of the entry in row `i`, column `j`.
    pub open spec fn at(self, i: int, j: int) -> int {
        self.data@[i]@[j]@
    }

    /// The all-zero matrix of the given shape.
    pub fn zeros(rows: usize, cols: usize) -> (r: Matrix)
        ensures
            r.wf(),
            r.rows() == rows,
            r.cols == cols,
            forall|i: int, j: int| 0 <= i < rows && 0 <= j < cols ==> r.at(i, j) == 0,
    {
        let mut data: Vec<Vec<Fix>> = Vec::new();
        for i in 0..rows
            invariant
                data@.len() == i,
                forall|i2: int| 0 <= i2 < i ==> (#[trigger] data@[i2])@.len() == cols,
                forall|i2: int, j2: int|
                    0 <= i2 < i && 0 <= j2 < cols ==> (#[trigger] data@[i2]@[j2])@ == 0,
        {
            let mut row: Vec<Fix> = Vec::new();
            for j in 0..cols
                invariant
                    row@.len() == j,
                    forall|j2: int| 0 <= j2 < j ==> (#[trigger] row@[j2])@ == 0,
            {
                row.push(Fix::zero());
            }
            data.push(row);
        }
        Matrix { data, cols }
    }

    /// Read the entry in row `i`, column `j`.
    pub fn get(&self, i: usize, j: usize) -> (r: Fix)
        requires
            self.wf(),
            i < self.rows(),
            j < self.cols,
        ensures
            r@ == self.at(i as int, j as int),
    {
        self.data[i][j]
    }

    /// Overwrite the entry in row `i`, column `j`.
    pub fn set(&mut self, i: usize, j: usize, v: Fix)
        requires
            old(self).wf(),
            i < old(self).rows(),
            j < old(self).cols,
        ensures
            final(self).wf(),
            final(self).rows() == old(self).rows(),
            final(self).cols == old(self).cols,
            final(self).at(i as int, j as int) == v@,
            forall|i2: int, j2: int|
                0 <= i2 < old(self).rows() && 0 <= j2 < old(self).cols && !(i2 == i && j2 == j)
                    ==> final(self).at(i2, j2) == old(self).at(i2, j2),
    {
        let row: &mut Vec<Fix> = &mut self.data[i];
        row.set(j, v);
    }

    /// The transpose.
    pub fn transpose(&self) -> (r: Matrix)
        requires
            self.wf(),
        ensures
            r.wf(),
            r.rows() == self.cols,
            r.cols == self.rows(),
            forall|i: int, j: int|
                0 <= i < r.rows() && 0 <= j < r.cols ==> r.at(i, j) == self.at(j, i),
            rows_of(r) == transpose_of(rows_of(*self), self.cols as int),
    {
        let n: usize = self.data.len();
        let mut data: Vec<Vec<Fix>> = Vec::new();
        for i in 0..self.cols
            invariant
                self.wf(),
                n == self.rows(),
                data@.len() == i,
                forall|i2: int| 0 <= i2 < i ==> (#[trigger] data@[i2])@.len() == n,
                forall|i2: int, j2: int|
                    0 <= i2 < i && 0 <= j2 < n
                        ==> (#[trigger] data@[i2]@[j2])@ == self.at(j2, i2),
        {
            let mut row: Vec<Fix> = Vec::new();
            for j in 0..n
                invariant
                    self.wf(),
                    n == self.rows(),
                    i < self.cols,
                    row@.len() == j,
                    forall|j2: int| 0 <= j2 < j ==> (#[trigger] row@[j2])@ == self.at(j2, i as int),
            {
                row.push(self.data[j][i]);
            }
            data.push(row);
        }
        let r = Matrix { data, cols: n };
        proof {
            assert(rows_of(r) =~~= transpose_of(rows_of(*self), self.cols as int));
        }
        r
    }

    /// Matrix product; entry (i, j) is the exact fixed-point fold of
    /// row i of `self` against column j of `other`.
    pub fn mul(&self, other: &Matrix) -> (r: Matrix)
        requires
            self.wf(),
            other.wf(),
            self.cols == other.rows(),
        ensures
            r.wf(),
            r.rows() == self.rows(),
            r.cols == other.cols,
            forall|i: int, j: int|
                0 <= i < r.rows() && 0 <= j < r.cols
                    ==> r.at(i, j) == dot_fold(self.data@[i]@, col(*other, j), self.cols as int),
            rows_of(r) == matmul_of(
                rows_of(*self),
                rows_of(*other),
                self.cols as int,
                other.cols as int,
            ),
    {
        let m: usize = self.data.len();
        let n: usize = self.cols;
        let p: usize = other.cols;
        let mut data: Vec<Vec<Fix>> = Vec::new();
        for i in 0..m
            invariant
                self.wf(),
                other.wf(),
                m == self.rows(),
                n == self.cols,
                n == other.rows(),
                p == other.cols,
                data@.len() == i,
                forall|i2: int| 0 <= i2 < i ==> (#[trigger] data@[i2])@.len() == p,
                forall|i2: int, j2: int|
                    0 <= i2 < i && 0 <= j2 < p
                        ==> (#[trigger] data@[i2]@[j2])@
                            == dot_fold(self.data@[i2]@, col(*other, j2), n as int),
        {
            let mut row: Vec<Fix> = Vec::new();
            for j in 0..p
                invariant
                    self.wf(),
                    other.wf(),
                    m == self.rows(),
                    n == self.cols,
                    n == other.rows(),
                    p == other.cols,
                    i < m,
                    row@.len() == j,
                    forall|j2: int|
                        0 <= j2 < j
                            ==> (#[trigger] row@[j2])@
                                == dot_fold(self.data@[i as int]@, col(*other, j2), n as int),
            {
                let mut acc: Fix = Fix::zero();
                for k in 0..n
                    invariant
                        self.wf(),
                        other.wf(),
                        m == self.rows(),
                        n == self.cols,
                        n == other.rows(),
                        p == other.cols,
                        i < m,
                        j < p,
                        acc@ == dot_fold(self.data@[i as int]@, col(*other, j as int), k as int),
                {
                    let term: Fix = self.data[i][k].mul(other.data[k][j]);
                    proof {
                        assert(col(*other, j as int)[k as int] == other.data@[k as int]@[j as int]);
                    }
                    acc = acc.add(term);
                }
                row.push(acc);
            }
            data.push(row);
        }
        let r = Matrix { data, cols: p };
        proof {
            assert forall|j: int| 0 <= j < p implies col(*other, j) =~= col_of(
                rows_of(*other),
                j,
            ) by {}
            assert(rows_of(r) =~~= matmul_of(
                rows_of(*self),
                rows_of(*other),
                n as int,
                p as int,
            ));
        }
        r
    }

    /// Matrix-vector product; entry i is the exact fixed-point fold of
    /// row i of `self` against `v`.
    pub fn mul_vec(&self, v: &Vec<Fix>) -> (r: Vec<Fix>)
        requires
            self.wf(),
            self.cols == v@.len(),
        ensures
            r@.len() == self.rows(),
            forall|i: int|
                0 <= i < r@.len()
                    ==> (#[trigger] r@[i])@ == dot_fold(self.data@[i]@, v@, self.cols as int),
            r@ == matvec_of(rows_of(*self), v@, self.cols as int),
    {
        let m: usize = self.data.len();
        let n: usize = self.cols;
        let mut out: Vec<Fix> = Vec::new();
        for i in 0..m
            invariant
                self.wf(),
                m == self.rows(),
                n == self.cols,
                n == v@.len(),
                out@.len() == i,
                forall|i2: int|
                    0 <= i2 < i
                        ==> (#[trigger] out@[i2])@ == dot_fold(self.data@[i2]@, v@, n as int),
        {
            let mut acc: Fix = Fix::zero();
            for k in 0..n
                invariant
                    self.wf(),
                    m == self.rows(),
                    n == self.cols,
                    n == v@.len(),
                    i < m,
                    acc@ == dot_fold(self.data@[i as int]@, v@, k as int),
            {
                acc = acc.add(self.data[i][k].mul(v[k]));
            }
            out.push(acc);
        }
        proof {
            assert(out@ =~= matvec_of(rows_of(*self), v@, n as int));
        }
        out
    }
}

/// Componentwise vector sum.
pub fn vec_add(a: &Vec<Fix>, b: &Vec<Fix>) -> (r: Vec<Fix>)
    requires
        a@.len() == b@.len(),
    ensures
        r@.len() == a@.len(),
        forall|i: int| 0 <= i < r@.len() ==> (#[trigger] r@[i])@ == spec_add(a@[i]@, b@[i]@),
        r@ == seq_add(a@, b@),
{
    let n: usize = a.len();
    let mut out: Vec<Fix> = Vec::new();
    for i in 0..n
        invariant
            n == a@.len(),
            n == b@.len(),
            out@.len() == i,
            forall|i2: int| 0 <= i2 < i ==> (#[trigger] out@[i2])@ == spec_add(a@[i2]@, b@[i2]@),
    {
        out.push(a[i].add(b[i]));
    }
    proof {
        assert(out@ =~= seq_add(a@, b@));
    }
    out
}

/// Componentwise vector difference.
pub fn vec_sub(a: &Vec<Fix>, b: &Vec<Fix>) -> (r: Vec<Fix>)
    requires
        a@.len() == b@.len(),
    ensures
        r@.len() == a@.len(),
        forall|i: int| 0 <= i < r@.len() ==> (#[trigger] r@[i])@ == spec_sub(a@[i]@, b@[i]@),
        r@ == seq_sub(a@, b@),
{
    let n: usize = a.len();
    let mut out: Vec<Fix> = Vec::new();
    for i in 0..n
        invariant
            n == a@.len(),
            n == b@.len(),
            out@.len() == i,
            forall|i2: int| 0 <= i2 < i ==> (#[trigger] out@[i2])@ == spec_sub(a@[i2]@, b@[i2]@),
    {
        out.push(a[i].sub(b[i]));
    }
    proof {
        assert(out@ =~= seq_sub(a@, b@));
    }
    out
}

/// Componentwise vector negation.
pub fn vec_neg(a: &Vec<Fix>) -> (r: Vec<Fix>)
    ensures
        r@.len() == a@.len(),
        forall|i: int| 0 <= i < r@.len() ==> (#[trigger] r@[i])@ == spec_neg(a@[i]@),
        r@ == seq_neg(a@),
{
    let n: usize = a.len();
    let mut out: Vec<Fix> = Vec::new();
    for i in 0..n
        invariant
            n == a@.len(),
            out@.len() == i,
            forall|i2: int| 0 <= i2 < i ==> (#[trigger] out@[i2])@ == spec_neg(a@[i2]@),
    {
        out.push(a[i].neg());
    }
    proof {
        assert(out@ =~= seq_neg(a@));
    }
    out
}

/// Vector scaled by a fixed-point factor.
pub fn vec_scale(a: &Vec<Fix>, k: Fix) -> (r: Vec<Fix>)
    ensures
        r@.len() == a@.len(),
        forall|i: int| 0 <= i < r@.len() ==> (#[trigger] r@[i])@ == spec_mul(a@[i]@, k@),
        r@ == seq_scale(a@, k@),
{
    let n: usize = a.len();
    let mut out: Vec<Fix> = Vec::new();
    for i in 0..n
        invariant
            n == a@.len(),
            out@.len() == i,
            forall|i2: int| 0 <= i2 < i ==> (#[trigger] out@[i2])@ == spec_mul(a@[i2]@, k@),
    {
        out.push(a[i].mul(k));
    }
    proof {
        assert(out@ =~= seq_scale(a@, k@));
    }
    out
}

/// The all-zero vector.
pub fn vec_zeros(n: usize) -> (r: Vec<Fix>)
    ensures
        r@.len() == n,
        forall|i: int| 0 <= i < n ==> (#[trigger] r@[i])@ == 0,
{
    let mut out: Vec<Fix> = Vec::new();
    for i in 0..n
        invariant
            out@.len() == i,
            forall|i2: int| 0 <= i2 < i ==> (#[trigger] out@[i2])@ == 0,
    {
        out.push(Fix::zero());
    }
    out
}

/// Componentwise vector division by a nonzero scalar.
pub fn vec_div(a: &Vec<Fix>, d: Fix) -> (r: Vec<Fix>)
    requires
        d@ != 0,
    ensures
        r@.len() == a@.len(),
        forall|i: int| 0 <= i < r@.len() ==> (#[trigger] r@[i])@ == spec_div(a@[i]@, d@),
        r@ == seq_div(a@, d@),
{
    let n: usize = a.len();
    let mut out: Vec<Fix> = Vec::new();
    for i in 0..n
        invariant
            n == a@.len(),
            d@ != 0,
            out@.len() == i,
            forall|i2: int| 0 <= i2 < i ==> (#[trigger] out@[i2])@ == spec_div(a@[i2]@, d@),
    {
        out.push(a[i].div(d));
    }
    proof {
        assert(out@ =~= seq_div(a@, d@));
    }
    out
}

/// Dot product of two vectors, folded left to right.
pub fn vec_dot(a: &Vec<Fix>, b: &Vec<Fix>) -> (r: Fix)
    requires
        a@.len() == b@.len(),
    ensures
        r@ == dot_fold(a@, b@, a@.len() as int),
{
    let n: usize = a.len();
    let mut acc: Fix = Fix::zero();
    for i in 0..n
        invariant
            n == a@.len(),
            n == b@.len(),
            acc@ == dot_fold(a@, b@, i as int),
    {
        acc = acc.add(a[i].mul(b[i]));
    }
    acc
}

/// A fresh copy of a vector.
pub fn vec_copy(a: &Vec<Fix>) -> (r: Vec<Fix>)
    ensures
        r@ == a@,
{
    let n: usize = a.len();
    let mut out: Vec<Fix> = Vec::new();
    for i in 0..n
        invariant
            n == a@.len(),
            out@.len() == i,
            forall|i2: int| 0 <= i2 < i ==> #[trigger] out@[i2] == a@[i2],
    {
        out.push(a[i]);
    }
    proof {
        assert(out@ =~= a@);
    }
    out
}

/// Every entry of the vector is zero.
pub open spec fn all_zero(v: Seq<Fix>) -> bool {
    forall|i: int| 0 <= i < v.len() ==> (#[trigger] v[i])@ == 0
}

/// Folding against an all-zero vector yields exactly zero.
pub proof fn lemma_dot_fold_zero_right(a: Seq<Fix>, b: Seq<Fix>, k: int)
    requires
        0 <= k <= b.len(),
        forall|i: int| 0 <= i < k ==> (#[trigger] b[i])@ == 0,
    ensures
        dot_fold(a, b, k) == 0,
    decreases k,
{
    if k > 0 {
        lemma_dot_fold_zero_right(a, b, k - 1);
        lemma_mul_zero(a[k - 1]@);
    }
}

} // verus!
