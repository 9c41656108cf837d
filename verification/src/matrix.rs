//! Rectangular matrices of fixed-point scalars, with the 4x4 operations the
//! tracer needs: product, transpose, determinant, cofactors and inverse.

use vstd::prelude::*;
use crate::fx::fx_add;
use crate::fx::fx_add_i;
use crate::fx::fx_sub;
use crate::fx::fx_sub_i;
use crate::fx::fx_neg;
use crate::fx::fx_neg_i;
use crate::fx::fx_mul;
use crate::fx::fx_mul_i;
use crate::fx::fx_div;
use crate::fx::fx_div_i;
use crate::fx::abs_s;
use crate::fx::FX_ONE;
use crate::tuple::Tuple;

verus! {

#[derive(Clone, Debug)]
pub struct Matrix {
    pub values: Vec<Vec<i64>>,
}

/// 2x2 determinant of the four entries of [[a, b], [c, d]].
pub open spec fn det2v_s(a: i64, b: i64, c: i64, d: i64) -> i64 {
    fx_sub_i(fx_mul_i(a, d), fx_mul_i(c, b))
}

/// 3x3 determinant, expanded along the first row, summed left to right.
pub open spec fn det3v_s(
    e00: i64,
    e01: i64,
    e02: i64,
    e10: i64,
    e11: i64,
    e12: i64,
    e20: i64,
    e21: i64,
    e22: i64,
) -> i64 {
    fx_add_i(
        fx_sub_i(
            fx_mul_i(e00, det2v_s(e11, e12, e21, e22)),
            fx_mul_i(e01, det2v_s(e10, e12, e20, e22)),
        ),
        fx_mul_i(e02, det2v_s(e10, e11, e20, e21)),
    )
}

impl Matrix {
    pub open spec fn nrows_s(self) -> nat {
        self.values@.len()
    }

    pub open spec fn ncols_s(self) -> nat {
        if self.values@.len() == 0 {
            0
        } else {
            self.values@[0]@.len()
        }
    }

    /// Rectangular and nonempty.
    pub open spec fn wf_s(self) -> bool {
        self.nrows_s() > 0 && self.ncols_s() > 0 && forall|i: int|
            0 <= i < self.nrows_s() ==> (#[trigger] self.values@[i]@.len()) == self.ncols_s()
    }

    pub open spec fn entry_s(self, i: int, j: int) -> i64 {
        self.values@[i]@[j]
    }

    pub open spec fn is_square_s(self, n: nat) -> bool {
        self.wf_s() && self.nrows_s() == n && self.ncols_s() == n
    }

    /// Entry (i, j) of the submatrix that drops `row` and `col`.
    pub open spec fn sub_entry_s(self, row: int, col: int, i: int, j: int) -> i64 {
        self.entry_s(
            if i < row {
                i
            } else {
                i + 1
            },
            if j < col {
                j
            } else {
                j + 1
            },
        )
    }

    pub open spec fn det2_s(self) -> i64 {
        det2v_s(self.entry_s(0, 0), self.entry_s(0, 1), self.entry_s(1, 0), self.entry_s(1, 1))
    }

    pub open spec fn det3_s(self) -> i64 {
        det3v_s(
            self.entry_s(0, 0),
            self.entry_s(0, 1),
            self.entry_s(0, 2),
            self.entry_s(1, 0),
            self.entry_s(1, 1),
            self.entry_s(1, 2),
            self.entry_s(2, 0),
            self.entry_s(2, 1),
            self.entry_s(2, 2),
        )
    }

    /// Determinant of the 3x3 or 2x2 matrix left after dropping `row`/`col`.
    pub open spec fn minor_s(self, row: int, col: int) -> i64 {
        if self.nrows_s() == 3 {
            det2v_s(
                self.sub_entry_s(row, col, 0, 0),
                self.sub_entry_s(row, col, 0, 1),
                self.sub_entry_s(row, col, 1, 0),
                self.sub_entry_s(row, col, 1, 1),
            )
        } else {
            det3v_s(
                self.sub_entry_s(row, col, 0, 0),
                self.sub_entry_s(row, col, 0, 1),
                self.sub_entry_s(row, col, 0, 2),
                self.sub_entry_s(row, col, 1, 0),
                self.sub_entry_s(row, col, 1, 1),
                self.sub_entry_s(row, col, 1, 2),
                self.sub_entry_s(row, col, 2, 0),
                self.sub_entry_s(row, col, 2, 1),
                self.sub_entry_s(row, col, 2, 2),
            )
        }
    }

    /// Minor with the checkerboard sign.
    pub open spec fn cofactor_s(self, row: int, col: int) -> i64 {
        if (row + col) % 2 == 0 {
            self.minor_s(row, col)
        } else {
            fx_neg_i(self.minor_s(row, col))
        }
    }

    /// 4x4 determinant: expansion along row 0, accumulated left to right
    /// from zero, exactly as the executable loop does.
    pub open spec fn det4_s(self) -> i64 {
        fx_add_i(
            fx_add_i(
                fx_add_i(
                    fx_add_i(0, fx_mul_i(self.entry_s(0, 0), self.cofactor_s(0, 0))),
                    fx_mul_i(self.entry_s(0, 1), self.cofactor_s(0, 1)),
                ),
                fx_mul_i(self.entry_s(0, 2), self.cofactor_s(0, 2)),
            ),
            fx_mul_i(self.entry_s(0, 3), self.cofactor_s(0, 3)),
        )
    }

    pub open spec fn det_s(self) -> i64 {
        if self.nrows_s() == 2 {
            self.det2_s()
        } else if self.nrows_s() == 3 {
            self.det3_s()
        } else {
            self.det4_s()
        }
    }

    /// Entry (i, j) of the inverse of a 4x4 matrix: the transposed cofactor
    /// divided by the determinant.
    pub open spec fn inv4_entry_s(self, i: int, j: int) -> i64 {
        fx_div_i(self.cofactor_s(j, i), self.det4_s())
    }

    /// Partial dot product of row `r` of `self` and column `c` of `rhs`,
    /// over the first `k` terms, accumulated left to right from zero.
    pub open spec fn mul_sum_s(self, rhs: Matrix, r: int, c: int, k: nat) -> i64
        decreases k,
    {
        if k == 0 {
            0
        } else {
            fx_add_i(
                self.mul_sum_s(rhs, r, c, (k - 1) as nat),
                fx_mul_i(self.entry_s(r, k - 1), rhs.entry_s(k - 1, c)),
            )
        }
    }

    pub open spec fn mul_entry_s(self, rhs: Matrix, r: int, c: int) -> i64 {
        self.mul_sum_s(rhs, r, c, self.ncols_s())
    }

    /// Copy the given grid of entries. The grid must be rectangular and
    /// nonempty; a ragged grid is a programming error.
    pub fn new(rows: &Vec<Vec<i64>>) -> (r: Matrix)
        requires
            rows@.len() > 0,
            rows@[0]@.len() > 0,
            forall|i: int| 0 <= i < rows@.len() ==> (#[trigger] rows@[i]@.len()) == rows@[0]@.len(),
        ensures
            r.wf_s(),
            r.nrows_s() == rows@.len(),
            r.ncols_s() == rows@[0]@.len(),
            forall|i: int, j: int|
                0 <= i < rows@.len() && 0 <= j < rows@[0]@.len() ==> r.entry_s(i, j) == rows@[i]@[j],
    {
        let nr: usize = rows.len();
        let nc: usize = rows[0].len();
        let mut values: Vec<Vec<i64>> = Vec::new();
        let mut i: usize = 0;
        while i < nr
            invariant
                i <= nr,
                nr == rows@.len(),
                nc == rows@[0]@.len(),
                forall|p: int| 0 <= p < nr ==> (#[trigger] rows@[p]@.len()) == nc,
                values@.len() == i,
                forall|p: int| 0 <= p < i ==> (#[trigger] values@[p]@.len()) == nc,
                forall|p: int, q: int|
                    0 <= p < i && 0 <= q < nc ==> (#[trigger] values@[p]@[q]) == rows@[p]@[q],
            decreases nr - i,
        {
            let mut row: Vec<i64> = Vec::new();
            let mut j: usize = 0;
            while j < nc
                invariant
                    j <= nc,
                    i < nr,
                    nr == rows@.len(),
                    nc == rows@[0]@.len(),
                    forall|p: int| 0 <= p < nr ==> (#[trigger] rows@[p]@.len()) == nc,
                    row@.len() == j,
                    forall|q: int| 0 <= q < j ==> (#[trigger] row@[q]) == rows@[i as int]@[q],
                decreases nc - j,
            {
                row.push(rows[i][j]);
                j = j + 1;
            }
            values.push(row);
            i = i + 1;
        }
        Matrix { values }
    }

    pub fn rows(&self) -> (r: usize)
        ensures
            r == self.nrows_s(),
    {
        self.values.len()
    }

    pub fn cols(&self) -> (r: usize)
        requires
            self.nrows_s() > 0,
        ensures
            r == self.ncols_s(),
    {
        self.values[0].len()
    }

    pub fn get(&self, i: usize, j: usize) -> (r: i64)
        requires
            i < self.nrows_s(),
            j < self.values@[i as int]@.len(),
        ensures
            r == self.entry_s(i as int, j as int),
    {
        self.values[i][j]
    }

    /// The n-by-n identity.
    pub fn identity(rows: usize) -> (r: Matrix)
        requires
            rows > 0,
        ensures
            r.is_square_s(rows as nat),
            forall|i: int, j: int|
                0 <= i < rows && 0 <= j < rows ==> r.entry_s(i, j) == (if i == j {
                    FX_ONE
                } else {
                    0
                }),
    {
        let mut values: Vec<Vec<i64>> = Vec::new();
        let mut i: usize = 0;
        while i < rows
            invariant
                i <= rows,
                values@.len() == i,
                forall|p: int| 0 <= p < i ==> (#[trigger] values@[p]@.len()) == rows,
                forall|p: int, q: int|
                    0 <= p < i && 0 <= q < rows ==> (#[trigger] values@[p]@[q]) == (if p == q {
                        FX_ONE
                    } else {
                        0i64
                    }),
            decreases rows - i,
        {
            let mut row: Vec<i64> = Vec::new();
            let mut j: usize = 0;
            while j < rows
                invariant
                    j <= rows,
                    row@.len() == j,
                    forall|q: int|
                        0 <= q < j ==> (#[trigger] row@[q]) == (if i == q {
                            FX_ONE
                        } else {
                            0i64
                        }),
                decreases rows - j,
            {
                if i == j {
                    row.push(FX_ONE);
                } else {
                    row.push(0);
                }
                j = j + 1;
            }
            values.push(row);
            i = i + 1;
        }
        Matrix { values }
    }

    pub fn transpose(&self) -> (r: Matrix)
        requires
            self.wf_s(),
        ensures
            r.wf_s(),
            r.nrows_s() == self.ncols_s(),
            r.ncols_s() == self.nrows_s(),
            forall|i: int, j: int|
                0 <= i < self.ncols_s() && 0 <= j < self.nrows_s() ==> r.entry_s(i, j)
                    == self.entry_s(j, i),
    {
        let nr: usize = self.rows();
        let nc: usize = self.cols();
        let mut values: Vec<Vec<i64>> = Vec::new();
        let mut i: usize = 0;
        while i < nc
            invariant
                i <= nc,
                self.wf_s(),
                nr == self.nrows_s(),
                nc == self.ncols_s(),
                values@.len() == i,
                forall|p: int| 0 <= p < i ==> (#[trigger] values@[p]@.len()) == nr,
                forall|p: int, q: int|
                    0 <= p < i && 0 <= q < nr ==> (#[trigger] values@[p]@[q]) == self.entry_s(q, p),
            decreases nc - i,
        {
            let mut row: Vec<i64> = Vec::new();
            let mut j: usize = 0;
            while j < nr
                invariant
                    j <= nr,
                    i < nc,
                    self.wf_s(),
                    nr == self.nrows_s(),
                    nc == self.ncols_s(),
                    row@.len() == j,
                    forall|q: int| 0 <= q < j ==> (#[trigger] row@[q]) == self.entry_s(q, i as int),
                decreases nr - j,
            {
                row.push(self.values[j][i]);
                j = j + 1;
            }
            values.push(row);
            i = i + 1;
        }
        Matrix { values }
    }

    /// The matrix with `row` and `col` removed.
    pub fn submatrix(&self, row: usize, col: usize) -> (r: Matrix)
        requires
            self.wf_s(),
            self.nrows_s() > 1,
            self.ncols_s() > 1,
            row < self.nrows_s(),
            col < self.ncols_s(),
        ensures
            r.wf_s(),
            r.nrows_s() == self.nrows_s() - 1,
            r.ncols_s() == self.ncols_s() - 1,
            forall|i: int, j: int|
                0 <= i < self.nrows_s() - 1 && 0 <= j < self.ncols_s() - 1 ==> r.entry_s(i, j)
                    == self.sub_entry_s(row as int, col as int, i, j),
    {
        let nr: usize = self.rows();
        let nc: usize = self.cols();
        let mut values: Vec<Vec<i64>> = Vec::new();
        let mut i: usize = 0;
        while i < nr - 1
            invariant
                i <= nr - 1,
                self.wf_s(),
                nr == self.nrows_s(),
                nc == self.ncols_s(),
                nr > 1,
                nc > 1,
                row < nr,
                col < nc,
                values@.len() == i,
                forall|p: int| 0 <= p < i ==> (#[trigger] values@[p]@.len()) == nc - 1,
                forall|p: int, q: int|
                    0 <= p < i && 0 <= q < nc - 1 ==> (#[trigger] values@[p]@[q])
                        == self.sub_entry_s(row as int, col as int, p, q),
            decreases nr - 1 - i,
        {
            let si: usize = if i < row {
                i
            } else {
                i + 1
            };
            let mut rvec: Vec<i64> = Vec::new();
            let mut j: usize = 0;
            while j < nc - 1
                invariant
                    j <= nc - 1,
                    i < nr - 1,
                    self.wf_s(),
                    nr == self.nrows_s(),
                    nc == self.ncols_s(),
                    nr > 1,
                    nc > 1,
                    row < nr,
                    col < nc,
                    si == (if i < row {
                        i as int
                    } else {
                        i + 1
                    }),
                    rvec@.len() == j,
                    forall|q: int|
                        0 <= q < j ==> (#[trigger] rvec@[q]) == self.sub_entry_s(
                            row as int,
                            col as int,
                            i as int,
                            q,
                        ),
                decreases nc - 1 - j,
            {
                let sj: usize = if j < col {
                    j
                } else {
                    j + 1
                };
                rvec.push(self.values[si][sj]);
                j = j + 1;
            }
            values.push(rvec);
            i = i + 1;
        }
        Matrix { values }
    }

    /// Determinant of a 2x2, 3x3 or 4x4 matrix.
    pub fn determinant(&self) -> (r: i64)
        requires
            self.wf_s(),
            self.nrows_s() == self.ncols_s(),
            2 <= self.nrows_s() <= 4,
        ensures
            r == self.det_s(),
        decreases self.nrows_s(),
    {
        let n: usize = self.rows();
        if n == 2 {
            fx_sub(
                fx_mul(self.get(0, 0), self.get(1, 1)),
                fx_mul(self.get(1, 0), self.get(0, 1)),
            )
        } else if n == 3 {
            fx_add(
                fx_sub(
                    fx_mul(
                        self.get(0, 0),
                        fx_sub(
                            fx_mul(self.get(1, 1), self.get(2, 2)),
                            fx_mul(self.get(2, 1), self.get(1, 2)),
                        ),
                    ),
                    fx_mul(
                        self.get(0, 1),
                        fx_sub(
                            fx_mul(self.get(1, 0), self.get(2, 2)),
                            fx_mul(self.get(2, 0), self.get(1, 2)),
                        ),
                    ),
                ),
                fx_mul(
                    self.get(0, 2),
                    fx_sub(
                        fx_mul(self.get(1, 0), self.get(2, 1)),
                        fx_mul(self.get(2, 0), self.get(1, 1)),
                    ),
                ),
            )
        } else {
            let mut acc: i64 = 0;
            let c0: i64 = fx_mul(self.get(0, 0), self.cofactor(0, 0));
            acc = fx_add(acc, c0);
            let c1: i64 = fx_mul(self.get(0, 1), self.cofactor(0, 1));
            acc = fx_add(acc, c1);
            let c2: i64 = fx_mul(self.get(0, 2), self.cofactor(0, 2));
            acc = fx_add(acc, c2);
            let c3: i64 = fx_mul(self.get(0, 3), self.cofactor(0, 3));
            acc = fx_add(acc, c3);
            acc
        }
    }

    /// Determinant of the submatrix dropping `row` and `col`.
    pub fn minor(&self, row: usize, col: usize) -> (r: i64)
        requires
            self.wf_s(),
            self.nrows_s() == self.ncols_s(),
            3 <= self.nrows_s() <= 4,
            row < self.nrows_s(),
            col < self.ncols_s(),
        ensures
            r == self.minor_s(row as int, col as int),
        decreases self.nrows_s(), 0nat,
    {
        let sub: Matrix = self.submatrix(row, col);
        sub.determinant()
    }

    /// Signed minor.
    pub fn cofactor(&self, row: usize, col: usize) -> (r: i64)
        requires
            self.wf_s(),
            self.nrows_s() == self.ncols_s(),
            3 <= self.nrows_s() <= 4,
            row < self.nrows_s(),
            col < self.ncols_s(),
        ensures
            r == self.cofactor_s(row as int, col as int),
        decreases self.nrows_s(), 1nat,
    {
        let m: i64 = self.minor(row, col);
        if (row + col) % 2 == 0 {
            m
        } else {
            fx_neg(m)
        }
    }

    pub fn is_invertible(&self) -> (r: bool)
        requires
            self.wf_s(),
            self.nrows_s() == self.ncols_s(),
            2 <= self.nrows_s() <= 4,
        ensures
            r == (self.det_s() != 0),
    {
        self.determinant() != 0
    }

    /// Inverse of an invertible 4x4 matrix: each entry is the transposed
    /// cofactor divided by the determinant.
    pub fn inverse(&self) -> (r: Matrix)
        requires
            self.is_square_s(4),
            self.det_s() != 0,
        ensures
            r.is_square_s(4),
            forall|i: int, j: int|
                0 <= i < 4 && 0 <= j < 4 ==> r.entry_s(i, j) == self.inv4_entry_s(i, j),
    {
        let det: i64 = self.determinant();
        let mut values: Vec<Vec<i64>> = Vec::new();
        let mut i: usize = 0;
        while i < 4
            invariant
                i <= 4,
                self.is_square_s(4),
                det == self.det4_s(),
                values@.len() == i,
                forall|p: int| 0 <= p < i ==> (#[trigger] values@[p]@.len()) == 4,
                forall|p: int, q: int|
                    0 <= p < i && 0 <= q < 4 ==> (#[trigger] values@[p]@[q]) == self.inv4_entry_s(
                        p,
                        q,
                    ),
            decreases 4 - i,
        {
            let mut row: Vec<i64> = Vec::new();
            let mut j: usize = 0;
            while j < 4
                invariant
                    j <= 4,
                    i < 4,
                    self.is_square_s(4),
                    det == self.det4_s(),
                    row@.len() == j,
                    forall|q: int|
                        0 <= q < j ==> (#[trigger] row@[q]) == self.inv4_entry_s(i as int, q),
                decreases 4 - j,
            {
                row.push(fx_div(self.cofactor(j, i), det));
                j = j + 1;
            }
            values.push(row);
            i = i + 1;
        }
        Matrix { values }
    }

    /// Matrix product, dimensions `(n x k) * (k x m)`.
    pub fn mul(&self, rhs: &Matrix) -> (r: Matrix)
        requires
            self.wf_s(),
            rhs.wf_s(),
            self.ncols_s() == rhs.nrows_s(),
        ensures
            r.wf_s(),
            r.nrows_s() == self.nrows_s(),
            r.ncols_s() == rhs.ncols_s(),
            forall|i: int, j: int|
                0 <= i < self.nrows_s() && 0 <= j < rhs.ncols_s() ==> r.entry_s(i, j)
                    == self.mul_entry_s(*rhs, i, j),
    {
        let nr: usize = self.rows();
        let nk: usize = self.cols();
        let nc: usize = rhs.cols();
        let mut values: Vec<Vec<i64>> = Vec::new();
        let mut i: usize = 0;
        while i < nr
            invariant
                i <= nr,
                self.wf_s(),
                rhs.wf_s(),
                self.ncols_s() == rhs.nrows_s(),
                nr == self.nrows_s(),
                nk == self.ncols_s(),
                nc == rhs.ncols_s(),
                values@.len() == i,
                forall|p: int| 0 <= p < i ==> (#[trigger] values@[p]@.len()) == nc,
                forall|p: int, q: int|
                    0 <= p < i && 0 <= q < nc ==> (#[trigger] values@[p]@[q]) == self.mul_entry_s(
                        *rhs,
                        p,
                        q,
                    ),
            decreases nr - i,
        {
            let mut row: Vec<i64> = Vec::new();
            let mut j: usize = 0;
            while j < nc
                invariant
                    j <= nc,
                    i < nr,
                    self.wf_s(),
                    rhs.wf_s(),
                    self.ncols_s() == rhs.nrows_s(),
                    nr == self.nrows_s(),
                    nk == self.ncols_s(),
                    nc == rhs.ncols_s(),
                    row@.len() == j,
                    forall|q: int|
                        0 <= q < j ==> (#[trigger] row@[q]) == self.mul_entry_s(*rhs, i as int, q),
                decreases nc - j,
            {
                let mut val: i64 = 0;
                let mut k: usize = 0;
                while k < nk
                    invariant
                        k <= nk,
                        i < nr,
                        j < nc,
                        self.wf_s(),
                        rhs.wf_s(),
                        self.ncols_s() == rhs.nrows_s(),
                        nr == self.nrows_s(),
                        nk == self.ncols_s(),
                        nc == rhs.ncols_s(),
                        val == self.mul_sum_s(*rhs, i as int, j as int, k as nat),
                    decreases nk - k,
                {
                    val = fx_add(val, fx_mul(self.values[i][k], rhs.values[k][j]));
                    k = k + 1;
                }
                row.push(val);
                j = j + 1;
            }
            values.push(row);
            i = i + 1;
        }
        Matrix { values }
    }

    /// Apply a 4x4 matrix to a tuple, row by row.
    pub fn mul_tuple(&self, t: Tuple) -> (r: Tuple)
        requires
            self.is_square_s(4),
        ensures
            r == self.mul_tuple_s(t),
    {
        Tuple {
            x: self.row_dot(0, t),
            y: self.row_dot(1, t),
            z: self.row_dot(2, t),
            w: self.row_dot(3, t),
        }
    }

    /// Row `i` of the inverse of `self`, applied to `t` — the contract-level
    /// form of `self.inverse().mul_tuple(t)`.
    pub open spec fn inv_row_dot_s(self, i: int, t: Tuple) -> i64 {
        fx_add_i(
            fx_add_i(
                fx_add_i(
                    fx_mul_i(self.inv4_entry_s(i, 0), t.x),
                    fx_mul_i(self.inv4_entry_s(i, 1), t.y),
                ),
                fx_mul_i(self.inv4_entry_s(i, 2), t.z),
            ),
            fx_mul_i(self.inv4_entry_s(i, 3), t.w),
        )
    }

    pub open spec fn inv_mul_tuple_s(self, t: Tuple) -> Tuple {
        Tuple {
            x: self.inv_row_dot_s(0, t),
            y: self.inv_row_dot_s(1, t),
            z: self.inv_row_dot_s(2, t),
            w: self.inv_row_dot_s(3, t),
        }
    }

    /// Row `i` of the transposed inverse of `self`, applied to `t` — the
    /// contract-level form of `self.inverse().transpose().mul_tuple(t)`.
    pub open spec fn inv_transpose_row_dot_s(self, i: int, t: Tuple) -> i64 {
        fx_add_i(
            fx_add_i(
                fx_add_i(
                    fx_mul_i(self.inv4_entry_s(0, i), t.x),
                    fx_mul_i(self.inv4_entry_s(1, i), t.y),
                ),
                fx_mul_i(self.inv4_entry_s(2, i), t.z),
            ),
            fx_mul_i(self.inv4_entry_s(3, i), t.w),
        )
    }

    pub open spec fn inv_transpose_mul_tuple_s(self, t: Tuple) -> Tuple {
        Tuple {
            x: self.inv_transpose_row_dot_s(0, t),
            y: self.inv_transpose_row_dot_s(1, t),
            z: self.inv_transpose_row_dot_s(2, t),
            w: self.inv_transpose_row_dot_s(3, t),
        }
    }

    pub open spec fn row_dot_s(self, i: int, t: Tuple) -> i64 {
        fx_add_i(
            fx_add_i(
                fx_add_i(fx_mul_i(self.entry_s(i, 0), t.x), fx_mul_i(self.entry_s(i, 1), t.y)),
                fx_mul_i(self.entry_s(i, 2), t.z),
            ),
            fx_mul_i(self.entry_s(i, 3), t.w),
        )
    }

    pub open spec fn mul_tuple_s(self, t: Tuple) -> Tuple {
        Tuple {
            x: self.row_dot_s(0, t),
            y: self.row_dot_s(1, t),
            z: self.row_dot_s(2, t),
            w: self.row_dot_s(3, t),
        }
    }

    fn row_dot(&self, i: usize, t: Tuple) -> (r: i64)
        requires
            self.is_square_s(4),
            i < 4,
        ensures
            r == self.row_dot_s(i as int, t),
    {
        fx_add(
            fx_add(
                fx_add(
                    fx_mul(self.values[i][0], t.x),
                    fx_mul(self.values[i][1], t.y),
                ),
                fx_mul(self.values[i][2], t.z),
            ),
            fx_mul(self.values[i][3], t.w),
        )
    }

    /// Exact equality of dimensions and entries.
    pub fn equals(&self, other: &Matrix) -> (r: bool)
        requires
            self.wf_s(),
            other.wf_s(),
        ensures
            r == (self.nrows_s() == other.nrows_s() && self.ncols_s() == other.ncols_s()
                && forall|i: int, j: int|
                0 <= i < self.nrows_s() && 0 <= j < self.ncols_s() ==> self.entry_s(i, j)
                    == other.entry_s(i, j)),
    {
        self.within(other, 0)
    }

    /// Same dimensions, entries within a tolerance, for callers comparing
    /// quantized results.
    pub fn approx_equals(&self, other: &Matrix, tol: i64) -> (r: bool)
        requires
            self.wf_s(),
            other.wf_s(),
            tol >= 0,
        ensures
            r == (self.nrows_s() == other.nrows_s() && self.ncols_s() == other.ncols_s()
                && forall|i: int, j: int|
                0 <= i < self.nrows_s() && 0 <= j < self.ncols_s() ==> abs_s(
                    self.entry_s(i, j) - other.entry_s(i, j),
                ) <= tol),
    {
        self.within(other, tol)
    }

    fn within(&self, other: &Matrix, tol: i64) -> (r: bool)
        requires
            self.wf_s(),
            other.wf_s(),
            tol >= 0,
        ensures
            r == (self.nrows_s() == other.nrows_s() && self.ncols_s() == other.ncols_s()
                && forall|i: int, j: int|
                0 <= i < self.nrows_s() && 0 <= j < self.ncols_s() ==> abs_s(
                    self.entry_s(i, j) - other.entry_s(i, j),
                ) <= tol),
    {
        let nr: usize = self.rows();
        let nc: usize = self.cols();
        if other.rows() != nr || other.cols() != nc {
            return false;
        }
        let mut i: usize = 0;
        while i < nr
            invariant
                i <= nr,
                self.wf_s(),
                other.wf_s(),
                tol >= 0,
                nr == self.nrows_s(),
                nc == self.ncols_s(),
                other.nrows_s() == nr,
                other.ncols_s() == nc,
                forall|p: int, q: int|
                    0 <= p < i && 0 <= q < nc ==> abs_s(
                        #[trigger] self.entry_s(p, q) - other.entry_s(p, q),
                    ) <= tol,
            decreases nr - i,
        {
            let mut j: usize = 0;
            while j < nc
                invariant
                    j <= nc,
                    i < nr,
                    self.wf_s(),
                    other.wf_s(),
                    tol >= 0,
                    nr == self.nrows_s(),
                    nc == self.ncols_s(),
                    other.nrows_s() == nr,
                    other.ncols_s() == nc,
                    forall|p: int, q: int|
                        0 <= p < i && 0 <= q < nc ==> abs_s(
                            #[trigger] self.entry_s(p, q) - other.entry_s(p, q),
                        ) <= tol,
                    forall|q: int|
                        0 <= q < j ==> abs_s(
                            #[trigger] self.entry_s(i as int, q) - other.entry_s(i as int, q),
                        ) <= tol,
                decreases nc - j,
            {
                let a: i128 = self.values[i][j] as i128 - other.values[i][j] as i128;
                let t: i128 = tol as i128;
                if a > t || a < -t {
                    proof {
                        assert(!(forall|p: int, q: int|
                            0 <= p < self.nrows_s() && 0 <= q < self.ncols_s() ==> abs_s(
                                #[trigger] self.entry_s(p, q) - other.entry_s(p, q),
                            ) <= tol)) by {
                            assert(abs_s(
                                self.entry_s(i as int, j as int) - other.entry_s(i as int, j as int),
                            ) > tol);
                        }
                    }
                    return false;
                }
                j = j + 1;
            }
            i = i + 1;
        }
        true
    }
}

/// The 4x4 identity (every diagonal entry one, the rest zero) has
/// determinant one, so it is invertible.
pub proof fn lemma_identity_det(m: Matrix)
    requires
        m.is_square_s(4),
        forall|i: int, j: int|
            0 <= i < 4 && 0 <= j < 4 ==> m.entry_s(i, j) == (if i == j {
                FX_ONE
            } else {
                0i64
            }),
    ensures
        m.det_s() == FX_ONE,
{
    assert(m.entry_s(0, 0) == FX_ONE);
    assert(m.entry_s(0, 1) == 0);
    assert(m.entry_s(0, 2) == 0);
    assert(m.entry_s(0, 3) == 0);
    assert(m.entry_s(1, 1) == FX_ONE && m.entry_s(2, 2) == FX_ONE && m.entry_s(3, 3) == FX_ONE);
    assert(m.entry_s(1, 0) == 0 && m.entry_s(1, 2) == 0 && m.entry_s(1, 3) == 0);
    assert(m.entry_s(2, 0) == 0 && m.entry_s(2, 1) == 0 && m.entry_s(2, 3) == 0);
    assert(m.entry_s(3, 0) == 0 && m.entry_s(3, 1) == 0 && m.entry_s(3, 2) == 0);
    assert(m.cofactor_s(0, 0) == FX_ONE);
    assert(m.det4_s() == FX_ONE);
}

/// A diagonal matrix diag(x, y, z, 1) has determinant `x * y * z` in the
/// scalar arithmetic.
pub proof fn lemma_diag_det(m: Matrix, x: i64, y: i64, z: i64)
    requires
        m.is_square_s(4),
        x != i64::MIN,
        y != i64::MIN,
        z != i64::MIN,
        m.entry_s(0, 0) == x,
        m.entry_s(1, 1) == y,
        m.entry_s(2, 2) == z,
        m.entry_s(3, 3) == FX_ONE,
        forall|i: int, j: int|
            0 <= i < 4 && 0 <= j < 4 && i != j ==> #[trigger] m.entry_s(i, j) == 0i64,
    ensures
        m.det_s() == fx_mul_i(x, fx_mul_i(y, z)),
{
    crate::fx::lemma_fx_mul_one(z);
    crate::fx::lemma_fx_mul_zero(0);
    crate::fx::lemma_fx_add_zero(z);
    assert(det2v_s(z, 0, 0, FX_ONE) == z);
    let p1 = fx_mul_i(y, z);
    crate::fx::lemma_fx_ranges(y, z);
    crate::fx::lemma_fx_add_zero(p1);
    assert(m.sub_entry_s(0, 0, 0, 0) == y);
    assert(m.sub_entry_s(0, 0, 1, 1) == z);
    assert(m.sub_entry_s(0, 0, 2, 2) == FX_ONE);
    crate::fx::lemma_fx_mul_zero(det2v_s(m.sub_entry_s(0, 0, 1, 0), m.sub_entry_s(0, 0, 1, 2), m.sub_entry_s(0, 0, 2, 0), m.sub_entry_s(0, 0, 2, 2)));
    crate::fx::lemma_fx_mul_zero(det2v_s(m.sub_entry_s(0, 0, 1, 0), m.sub_entry_s(0, 0, 1, 1), m.sub_entry_s(0, 0, 2, 0), m.sub_entry_s(0, 0, 2, 1)));
    assert(m.minor_s(0, 0) == p1);
    assert(m.cofactor_s(0, 0) == p1);
    let q = fx_mul_i(x, p1);
    crate::fx::lemma_fx_ranges(x, p1);
    crate::fx::lemma_fx_add_zero(q);
    crate::fx::lemma_fx_mul_zero(m.cofactor_s(0, 1));
    crate::fx::lemma_fx_mul_zero(m.cofactor_s(0, 2));
    crate::fx::lemma_fx_mul_zero(m.cofactor_s(0, 3));
    assert(m.det4_s() == q);
}

/// Row `i` of `m` applied to the homogeneous coordinates (x, y, z, w) in
/// exact integer arithmetic — the mathematical model that the fixed-point
/// operations approximate.
pub open spec fn row_dot_exact_s(m: Matrix, i: int, x: int, y: int, z: int, w: int) -> int {
    m.entry_s(i, 0) * x + m.entry_s(i, 1) * y + m.entry_s(i, 2) * z + m.entry_s(i, 3) * w
}

/// Round trip of an intersection through object space, in the exact model:
/// carrying the ray into object space, walking to parameter `t` there, and
/// mapping the point back is the same as walking to `t` in world space —
/// each row of the transform is linear, so `M(O + tD) == MO + t(MD)`
/// exactly. The executable pipeline differs from this only by the bounded
/// rounding of each fixed-point operation.
pub proof fn lemma_position_transform_exact(
    m: Matrix,
    i: int,
    ox: int,
    oy: int,
    oz: int,
    ow: int,
    dx: int,
    dy: int,
    dz: int,
    dw: int,
    t: int,
)
    ensures
        row_dot_exact_s(m, i, ox + t * dx, oy + t * dy, oz + t * dz, ow + t * dw) == row_dot_exact_s(
            m,
            i,
            ox,
            oy,
            oz,
            ow,
        ) + t * row_dot_exact_s(m, i, dx, dy, dz, dw),
{
    let a0 = m.entry_s(i, 0);
    let a1 = m.entry_s(i, 1);
    let a2 = m.entry_s(i, 2);
    let a3 = m.entry_s(i, 3);
    assert(a0 * (ox + t * dx) == a0 * ox + t * (a0 * dx)) by (nonlinear_arith);
    assert(a1 * (oy + t * dy) == a1 * oy + t * (a1 * dy)) by (nonlinear_arith);
    assert(a2 * (oz + t * dz) == a2 * oz + t * (a2 * dz)) by (nonlinear_arith);
    assert(a3 * (ow + t * dw) == a3 * ow + t * (a3 * dw)) by (nonlinear_arith);
    assert(t * (a0 * dx) + t * (a1 * dy) + t * (a2 * dz) + t * (a3 * dw) == t * (a0 * dx + a1 * dy
        + a2 * dz + a3 * dw)) by (nonlinear_arith);
}

impl Tuple {
    /// Read a tuple out of a 4x1 column matrix.
    pub fn from_matrix(m: &Matrix) -> (r: Tuple)
        requires
            m.wf_s(),
            m.nrows_s() == 4,
            m.ncols_s() == 1,
        ensures
            r == (Tuple {
                x: m.entry_s(0, 0),
                y: m.entry_s(1, 0),
                z: m.entry_s(2, 0),
                w: m.entry_s(3, 0),
            }),
    {
        Tuple { x: m.get(0, 0), y: m.get(1, 0), z: m.get(2, 0), w: m.get(3, 0) }
    }
}

} // verus!
