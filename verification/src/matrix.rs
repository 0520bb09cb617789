//! The dense linear-algebra primitive of the engine.
//!
//! A matrix stores its scalars row-major as binary64 bit patterns. Every
//! operation returns a new matrix; a shape mismatch is reported as a
//! [`NnError::DimensionMismatch`], never silently truncated or broadcast.

use vstd::prelude::*;
use crate::error::NnError;
use crate::scalar::{add_scalar, mul_scalar, sum_bits, prod_bits, B_ZERO};

verus! {

/// The mathematical model of a matrix: its shape and the sequence of its
/// scalar bit patterns, row-major.
#[verifier::ext_equal]
pub ghost struct MatModel {
    pub rows: nat,
    pub cols: nat,
    pub data: Seq<u64>,
}

impl MatModel {
    /// The storage invariant: the buffer holds exactly `rows * cols` scalars.
    pub open spec fn wf(self) -> bool {
        self.data.len() == self.rows * self.cols
    }

    /// The scalar at row `i`, column `j`.
    pub open spec fn entry(self, i: int, j: int) -> u64 {
        self.data[i * self.cols + j]
    }

    /// Row `i` as a sequence of `cols` scalars.
    pub open spec fn row(self, i: int) -> Seq<u64> {
        self.data.subrange(i * self.cols, i * self.cols + self.cols)
    }

    /// Column `j` as a sequence of `rows` scalars.
    pub open spec fn col(self, j: int) -> Seq<u64> {
        Seq::new(self.rows, |k: int| self.data[k * self.cols + j])
    }
}

/// The IEEE-754 inner product of the first `n` scalars of `a` and `b`,
/// accumulated in ascending index order from +0.0, exactly as the executable
/// product loop computes it.
pub open spec fn dot_seq(a: Seq<u64>, b: Seq<u64>, n: int) -> u64
    decreases n,
{
    if n <= 0 {
        B_ZERO
    } else {
        sum_bits(dot_seq(a, b, n - 1), prod_bits(a[n - 1], b[n - 1]))
    }
}

/// The model of the standard matrix product of `a` (shape r x n) and `b`
/// (shape n x c): entry (i, j) is the inner product of row i of `a` and
/// column j of `b`.
pub open spec fn matmul_model(a: MatModel, b: MatModel) -> MatModel {
    MatModel {
        rows: a.rows,
        cols: b.cols,
        data: Seq::new(
            a.rows * b.cols,
            |k: int| dot_seq(a.row(k / b.cols as int), b.col(k % b.cols as int), a.cols as int),
        ),
    }
}

/// The model of element-wise addition.
pub open spec fn add_model(a: MatModel, b: MatModel) -> MatModel {
    MatModel {
        rows: a.rows,
        cols: a.cols,
        data: Seq::new(a.data.len(), |k: int| sum_bits(a.data[k], b.data[k])),
    }
}

/// The model of element-wise subtraction.
pub open spec fn sub_model(a: MatModel, b: MatModel) -> MatModel {
    MatModel {
        rows: a.rows,
        cols: a.cols,
        data: Seq::new(a.data.len(), |k: int| crate::scalar::diff_bits(a.data[k], b.data[k])),
    }
}

/// The model of the element-wise (Hadamard) product.
pub open spec fn emul_model(a: MatModel, b: MatModel) -> MatModel {
    MatModel {
        rows: a.rows,
        cols: a.cols,
        data: Seq::new(a.data.len(), |k: int| prod_bits(a.data[k], b.data[k])),
    }
}

/// The model of transposition: shape `cols x rows`, entry (j, i) of the
/// result is entry (i, j) of the argument.
pub open spec fn transpose_model(a: MatModel) -> MatModel {
    MatModel {
        rows: a.cols,
        cols: a.rows,
        data: Seq::new(
            a.cols * a.rows,
            |k: int| a.data[(k % a.rows as int) * a.cols + k / a.rows as int],
        ),
    }
}

/// The model of mapping every scalar through one [`ScalarOp`].
pub open spec fn map_model(op: crate::activation::ScalarOp, a: MatModel) -> MatModel {
    MatModel {
        rows: a.rows,
        cols: a.cols,
        data: Seq::new(a.data.len(), |k: int| crate::activation::op_bits(op, a.data[k])),
    }
}

/// The model of seeded random initialization: element `k` is the draw at
/// stream position `start + k`, mapped to [-1, 1).
pub open spec fn random_model(rows: nat, cols: nat, seed: u64, start: nat) -> MatModel {
    MatModel {
        rows: rows,
        cols: cols,
        data: Seq::new(
            rows * cols,
            |k: int| crate::scalar::sym_unit_bits(crate::rng::stdrng_out(seed, (start + k) as nat)),
        ),
    }
}

/// A value copy of a list of layer sizes.
pub fn copy_usizes(v: &Vec<usize>) -> (r: Vec<usize>)
    ensures
        r@ == v@,
{
    let n = v.len();
    let mut out: Vec<usize> = Vec::new();
    let mut k: usize = 0;
    while k < n
        invariant
            k <= n,
            out@.len() == k,
            forall|t: int| 0 <= t < k ==> out@[t] == v@[t],
        decreases n - k,
    {
        out.push(v[k]);
        k += 1;
    }
    proof {
        assert(out@ =~= v@);
    }
    out
}

/// A value copy of a scalar buffer.
pub fn copy_scalars(v: &Vec<u64>) -> (r: Vec<u64>)
    ensures
        r@ == v@,
{
    let n = v.len();
    let mut out: Vec<u64> = Vec::new();
    let mut k: usize = 0;
    while k < n
        invariant
            k <= n,
            out@.len() == k,
            forall|t: int| 0 <= t < k ==> out@[t] == v@[t],
        decreases n - k,
    {
        out.push(v[k]);
        k += 1;
    }
    proof {
        assert(out@ =~= v@);
    }
    out
}

/// A dense 2-D buffer of binary64 bit patterns, stored row-major.
/// Invariant (carried by every contract): `data.len() == rows * cols`.
#[derive(Debug)]
pub struct Matrix {
    pub rows: usize,
    pub cols: usize,
    pub data: Vec<u64>,
}

impl Clone for Matrix {
    /// A value copy: the clone has the same shape and the same scalars.
    fn clone(&self) -> (r: Matrix)
        ensures
            r@ == self@,
    {
        let n = self.data.len();
        let mut out: Vec<u64> = Vec::new();
        let mut k: usize = 0;
        while k < n
            invariant
                k <= n,
                out@.len() == k,
                forall|t: int| 0 <= t < k ==> out@[t] == self@.data[t],
            decreases n - k,
        {
            out.push(self.data[k]);
            k += 1;
        }
        let m = Matrix { rows: self.rows, cols: self.cols, data: out };
        proof {
            assert(m@.data =~= self@.data);
            assert(m@ =~= self@);
        }
        m
    }
}

impl View for Matrix {
    type V = MatModel;

    open spec fn view(&self) -> MatModel {
        MatModel { rows: self.rows as nat, cols: self.cols as nat, data: self.data@ }
    }
}

/// The error value every shape check of this module reports.
pub open spec fn mismatch_of(a: MatModel, b: MatModel) -> NnError {
    NnError::DimensionMismatch {
        left_rows: a.rows as usize,
        left_cols: a.cols as usize,
        right_rows: b.rows as usize,
        right_cols: b.cols as usize,
    }
}

impl Matrix {
    /// Builds the canonical column matrix of a single sample: `rows` is the
    /// length of the vector and `cols` is 1.
    pub fn from(v: Vec<u64>) -> (r: Matrix)
        ensures
            r@.wf(),
            r@.rows == v@.len(),
            r@.cols == 1,
            r@.data == v@,
    {
        let rows = v.len();
        Matrix { rows, cols: 1, data: v }
    }

    /// The scalar at row `i`, column `j`.
    pub fn get(&self, i: usize, j: usize) -> (r: u64)
        requires
            self@.wf(),
            i < self@.rows,
            j < self@.cols,
        ensures
            r == self@.entry(i as int, j as int),
    {
        let n = self.data.len();
        proof {
            assert(i * self.cols + j < self.rows * self.cols) by (nonlinear_arith)
                requires i < self.rows, j < self.cols;
            assert(i * self.cols + j < n);
        }
        self.data[i * self.cols + j]
    }

    /// Element-wise sum; the shapes must match exactly.
    pub fn add(&self, other: &Matrix) -> (r: Result<Matrix, NnError>)
        requires
            self@.wf(),
            other@.wf(),
        ensures
            r is Ok <==> (self@.rows == other@.rows && self@.cols == other@.cols),
            r matches Ok(m) ==> m@ == add_model(self@, other@) && m@.wf(),
            r matches Err(e) ==> e == mismatch_of(self@, other@),
    {
        if self.rows != other.rows || self.cols != other.cols {
            return Err(NnError::DimensionMismatch {
                left_rows: self.rows,
                left_cols: self.cols,
                right_rows: other.rows,
                right_cols: other.cols,
            });
        }
        let n = self.data.len();
        let mut out: Vec<u64> = Vec::new();
        let mut k: usize = 0;
        while k < n
            invariant
                k <= n,
                out@.len() == k,
                forall|t: int| 0 <= t < k ==> out@[t] == sum_bits(self@.data[t], other@.data[t]),
            decreases n - k,
        {
            out.push(add_scalar(self.data[k], other.data[k]));
            k += 1;
        }
        let m = Matrix { rows: self.rows, cols: self.cols, data: out };
        proof {
            assert(m@.data =~= add_model(self@, other@).data);
            assert(m@ =~= add_model(self@, other@));
        }
        Ok(m)
    }

    /// Element-wise difference; the shapes must match exactly.
    pub fn subtract(&self, other: &Matrix) -> (r: Result<Matrix, NnError>)
        requires
            self@.wf(),
            other@.wf(),
        ensures
            r is Ok <==> (self@.rows == other@.rows && self@.cols == other@.cols),
            r matches Ok(m) ==> m@ == sub_model(self@, other@) && m@.wf(),
            r matches Err(e) ==> e == mismatch_of(self@, other@),
    {
        if self.rows != other.rows || self.cols != other.cols {
            return Err(NnError::DimensionMismatch {
                left_rows: self.rows,
                left_cols: self.cols,
                right_rows: other.rows,
                right_cols: other.cols,
            });
        }
        let n = self.data.len();
        let mut out: Vec<u64> = Vec::new();
        let mut k: usize = 0;
        while k < n
            invariant
                k <= n,
                out@.len() == k,
                forall|t: int| 0 <= t < k ==> out@[t] == crate::scalar::diff_bits(
                    self@.data[t],
                    other@.data[t],
                ),
            decreases n - k,
        {
            out.push(crate::scalar::sub_scalar(self.data[k], other.data[k]));
            k += 1;
        }
        let m = Matrix { rows: self.rows, cols: self.cols, data: out };
        proof {
            assert(m@.data =~= sub_model(self@, other@).data);
            assert(m@ =~= sub_model(self@, other@));
        }
        Ok(m)
    }

    /// Element-wise product; the shapes must match exactly.
    pub fn elementwise_multiply(&self, other: &Matrix) -> (r: Result<Matrix, NnError>)
        requires
            self@.wf(),
            other@.wf(),
        ensures
            r is Ok <==> (self@.rows == other@.rows && self@.cols == other@.cols),
            r matches Ok(m) ==> m@ == emul_model(self@, other@) && m@.wf(),
            r matches Err(e) ==> e == mismatch_of(self@, other@),
    {
        if self.rows != other.rows || self.cols != other.cols {
            return Err(NnError::DimensionMismatch {
                left_rows: self.rows,
                left_cols: self.cols,
                right_rows: other.rows,
                right_cols: other.cols,
            });
        }
        let n = self.data.len();
        let mut out: Vec<u64> = Vec::new();
        let mut k: usize = 0;
        while k < n
            invariant
                k <= n,
                out@.len() == k,
                forall|t: int| 0 <= t < k ==> out@[t] == prod_bits(self@.data[t], other@.data[t]),
            decreases n - k,
        {
            out.push(mul_scalar(self.data[k], other.data[k]));
            k += 1;
        }
        let m = Matrix { rows: self.rows, cols: self.cols, data: out };
        proof {
            assert(m@.data =~= emul_model(self@, other@).data);
            assert(m@ =~= emul_model(self@, other@));
        }
        Ok(m)
    }

    /// Transposition: returns the `cols x rows` matrix with entry (j, i)
    /// equal to this matrix's entry (i, j).
    pub fn transpose(&self) -> (r: Matrix)
        requires
            self@.wf(),
        ensures
            r@ == transpose_model(self@),
            r@.wf(),
    {
        let len = self.data.len();
        let mut out: Vec<u64> = Vec::new();
        let mut j: usize = 0;
        while j < self.cols
            invariant
                j <= self.cols,
                out@.len() == j * self.rows,
                forall|t: int| 0 <= t < out@.len() ==> out@[t] == self@.data[
                    (t % self@.rows as int) * self@.cols + t / self@.rows as int
                ],
            decreases self.cols - j,
        {
            let mut i: usize = 0;
            let mut off: usize = 0;
            while i < self.rows
                invariant
                    i <= self.rows,
                    off == i * self.cols,
                    out@.len() == j * self.rows + i,
                    forall|t: int| 0 <= t < out@.len() ==> out@[t] == self@.data[
                        (t % self@.rows as int) * self@.cols + t / self@.rows as int
                    ],
                decreases self.rows - i,
            {
                proof {
                    assert(i * self.cols + j < self.rows * self.cols) by (nonlinear_arith)
                        requires i < self.rows, j < self.cols;
                    let t = j * self.rows as int + i;
                    vstd::arithmetic::div_mod::lemma_fundamental_div_mod_converse(
                        t, self.rows as int, j as int, i as int);
                    assert(t % self@.rows as int == i);
                    assert(t / self@.rows as int == j);
                }
                out.push(self.data[off + j]);
                proof {
                    assert((i + 1) * self.cols <= self.rows * self.cols) by (nonlinear_arith)
                        requires i < self.rows;
                    assert((i + 1) * self.cols == i * self.cols + self.cols) by (nonlinear_arith);
                }
                i += 1;
                off += self.cols;
            }
            j += 1;
            proof {
                assert((j - 1) * self.rows + self.rows == j * self.rows) by (nonlinear_arith);
            }
        }
        let m = Matrix { rows: self.cols, cols: self.rows, data: out };
        proof {
            assert(m@.data =~= transpose_model(self@).data);
            assert(m@ =~= transpose_model(self@));
        }
        m
    }

    /// The standard matrix product. Requires `self.cols == other.rows`;
    /// the result has shape `self.rows x other.cols`, and each entry is the
    /// inner product of the matching row and column, accumulated in index
    /// order exactly as [`dot_seq`] states.
    pub fn dot_multiply(&self, other: &Matrix) -> (r: Result<Matrix, NnError>)
        requires
            self@.wf(),
            other@.wf(),
        ensures
            r is Ok <==> self@.cols == other@.rows,
            r matches Ok(m) ==> m@ == matmul_model(self@, other@) && m@.wf(),
            r matches Err(e) ==> e == mismatch_of(self@, other@),
    {
        if self.cols != other.rows {
            return Err(NnError::DimensionMismatch {
                left_rows: self.rows,
                left_cols: self.cols,
                right_rows: other.rows,
                right_cols: other.cols,
            });
        }
        let len = self.data.len();
        let olen = other.data.len();
        let mut out: Vec<u64> = Vec::new();
        let mut i: usize = 0;
        let mut row_off: usize = 0;
        while i < self.rows
            invariant
                i <= self.rows,
                row_off == i * self.cols,
                out@.len() == i * other.cols,
                forall|t: int| 0 <= t < out@.len() ==> out@[t] == dot_seq(
                    self@.row(t / other@.cols as int),
                    other@.col(t % other@.cols as int),
                    self@.cols as int,
                ),
            decreases self.rows - i,
        {
            proof {
                assert((i + 1) * self.cols == i * self.cols + self.cols) by (nonlinear_arith);
                assert((i + 1) * self.cols <= self.rows * self.cols) by (nonlinear_arith)
                    requires i < self.rows;
            }
            let mut j: usize = 0;
            while j < other.cols
                invariant
                    j <= other.cols,
                    i < self.rows,
                    row_off == i * self.cols,
                    row_off + self.cols <= self.data.len(),
                    out@.len() == i * other.cols + j,
                    forall|t: int| 0 <= t < out@.len() ==> out@[t] == dot_seq(
                        self@.row(t / other@.cols as int),
                        other@.col(t % other@.cols as int),
                        self@.cols as int,
                    ),
                decreases other.cols - j,
            {
                let ghost rseq = self@.row(i as int);
                let ghost cseq = other@.col(j as int);
                proof {
                    assert(rseq.len() == self.cols);
                    assert(cseq.len() == other.rows);
                }
                let mut acc: u64 = B_ZERO;
                let mut k: usize = 0;
                let mut col_off: usize = 0;
                while k < self.cols
                    invariant
                        k <= self.cols,
                        self.cols == other.rows,
                        j < other.cols,
                        col_off == k * other.cols,
                        acc == dot_seq(rseq, cseq, k as int),
                    decreases self.cols - k,
                {
                    proof {
                        assert(k * other.cols + j < other.rows * other.cols) by (nonlinear_arith)
                            requires k < other.rows, j < other.cols;
                        assert(rseq[k as int] == self@.data[i * self@.cols + k]);
                        assert(cseq[k as int] == other@.data[k * other@.cols + j]);
                        assert((k + 1) * other.cols <= other.rows * other.cols) by (nonlinear_arith)
                            requires k < other.rows;
                        assert((k + 1) * other.cols == k * other.cols + other.cols)
                            by (nonlinear_arith);
                    }
                    let p = mul_scalar(self.data[row_off + k], other.data[col_off + j]);
                    acc = add_scalar(acc, p);
                    k += 1;
                    col_off += other.cols;
                }
                proof {
                    let t = i * other.cols as int + j;
                    vstd::arithmetic::div_mod::lemma_fundamental_div_mod_converse(
                        t, other.cols as int, i as int, j as int);
                    assert(t / other@.cols as int == i);
                    assert(t % other@.cols as int == j);
                }
                out.push(acc);
                j += 1;
            }
            i += 1;
            proof {
                assert((i - 1) * other.cols + other.cols == i * other.cols) by (nonlinear_arith);
                assert((i - 1) * self.cols + self.cols == i * self.cols) by (nonlinear_arith);
                assert(i * self.cols <= self.rows * self.cols) by (nonlinear_arith)
                    requires i <= self.rows;
            }
            row_off += self.cols;
        }
        let m = Matrix { rows: self.rows, cols: other.cols, data: out };
        proof {
            assert(m@.data =~= matmul_model(self@, other@).data);
            assert(m@ =~= matmul_model(self@, other@));
        }
        Ok(m)
    }

    /// A same-shape matrix with one scalar transformation applied to every
    /// element; used for activations, their derivatives, and learning-rate
    /// scaling.
    pub fn map(&self, op: &crate::activation::ScalarOp) -> (r: Matrix)
        requires
            self@.wf(),
        ensures
            r@ == map_model(*op, self@),
            r@.wf(),
    {
        let n = self.data.len();
        let mut out: Vec<u64> = Vec::new();
        let mut k: usize = 0;
        while k < n
            invariant
                k <= n,
                out@.len() == k,
                forall|t: int| 0 <= t < k ==> out@[t] == crate::activation::op_bits(
                    *op,
                    self@.data[t],
                ),
            decreases n - k,
        {
            out.push(crate::activation::apply_op(op, self.data[k]));
            k += 1;
        }
        let m = Matrix { rows: self.rows, cols: self.cols, data: out };
        proof {
            assert(m@.data =~= map_model(*op, self@).data);
            assert(m@ =~= map_model(*op, self@));
        }
        m
    }

    /// A `rows x cols` matrix whose elements are drawn independently,
    /// uniformly over [-1, 1), from the unseeded source. Nothing is
    /// promised of the values; the shape is exact.
    pub fn random(rows: usize, cols: usize) -> (r: Matrix)
        requires
            rows * cols <= usize::MAX,
        ensures
            r@.wf(),
            r@.rows == rows,
            r@.cols == cols,
    {
        let n = rows * cols;
        let mut out: Vec<u64> = Vec::new();
        let mut k: usize = 0;
        while k < n
            invariant
                k <= n,
                out@.len() == k,
            decreases n - k,
        {
            out.push(crate::scalar::sym_unit_scalar(crate::rng::os_random()));
            k += 1;
        }
        Matrix { rows, cols, data: out }
    }

    /// A `rows x cols` matrix whose elements are the next `rows * cols`
    /// draws of the seeded stream, each mapped to [-1, 1); bit-identical
    /// across runs for a given seed and stream position.
    pub fn random_seeded(rows: usize, cols: usize, rng: &mut crate::rng::SeededRng) -> (r: Matrix)
        requires
            rows * cols <= usize::MAX,
        ensures
            r@.wf(),
            r@ == random_model(rows as nat, cols as nat, old(rng).seed_spec(), old(rng).drawn_spec()),
            final(rng).seed_spec() == old(rng).seed_spec(),
            final(rng).drawn_spec() == old(rng).drawn_spec() + rows * cols,
    {
        let n = rows * cols;
        let mut out: Vec<u64> = Vec::new();
        let mut k: usize = 0;
        while k < n
            invariant
                k <= n,
                out@.len() == k,
                rng.seed_spec() == old(rng).seed_spec(),
                rng.drawn_spec() == old(rng).drawn_spec() + k,
                forall|t: int| 0 <= t < k ==> out@[t] == crate::scalar::sym_unit_bits(
                    crate::rng::stdrng_out(old(rng).seed_spec(), (old(rng).drawn_spec() + t) as nat),
                ),
            decreases n - k,
        {
            let d = rng.next();
            out.push(crate::scalar::sym_unit_scalar(d));
            k += 1;
        }
        let m = Matrix { rows, cols, data: out };
        proof {
            assert(m@.data =~= random_model(
                rows as nat, cols as nat, old(rng).seed_spec(), old(rng).drawn_spec()).data);
            assert(m@ =~= random_model(rows as nat, cols as nat, old(rng).seed_spec(), old(rng).drawn_spec()));
        }
        m
    }
}

} // verus!
