//! Affine transform constructors: translation, scaling, rotation, shearing,
//! and the look-at view transform.
//!
//! The rotation constructors take the sine and cosine of the angle as
//! fixed-point scalars; trigonometry itself is not part of this crate.

use vstd::prelude::*;
use crate::fx::fx_add_i;
use crate::fx::fx_neg;
use crate::fx::fx_neg_i;
use crate::fx::fx_mul_i;
use crate::fx::FX_ONE;
use crate::matrix::Matrix;
use crate::tuple::Tuple;

verus! {

/// Entry (i, j) of the orientation part of the view transform: rows are the
/// left, true-up and negated forward vectors derived from `from`, `to`, `up`.
pub open spec fn vt_orient_entry_s(from: Tuple, to: Tuple, up: Tuple, i: int, j: int) -> i64 {
    let forward = to.sub_s(from).normalize_s();
    let left = forward.cross_s(up.normalize_s());
    let true_up = left.cross_s(forward);
    if i == 0 {
        if j == 0 {
            left.x
        } else if j == 1 {
            left.y
        } else if j == 2 {
            left.z
        } else {
            0
        }
    } else if i == 1 {
        if j == 0 {
            true_up.x
        } else if j == 1 {
            true_up.y
        } else if j == 2 {
            true_up.z
        } else {
            0
        }
    } else if i == 2 {
        if j == 0 {
            fx_neg_i(forward.x)
        } else if j == 1 {
            fx_neg_i(forward.y)
        } else if j == 2 {
            fx_neg_i(forward.z)
        } else {
            0
        }
    } else {
        if j == 3 {
            FX_ONE
        } else {
            0
        }
    }
}

/// Entry (i, j) of the translation by `-from`.
pub open spec fn vt_trans_entry_s(from: Tuple, i: int, j: int) -> i64 {
    if j == 3 {
        if i == 0 {
            fx_neg_i(from.x)
        } else if i == 1 {
            fx_neg_i(from.y)
        } else if i == 2 {
            fx_neg_i(from.z)
        } else {
            FX_ONE
        }
    } else if i == j {
        FX_ONE
    } else {
        0
    }
}

/// Entry (i, j) of the full view transform: the row-by-column product of the
/// orientation and the translation, accumulated left to right from zero.
pub open spec fn view_transform_entry_s(from: Tuple, to: Tuple, up: Tuple, i: int, j: int) -> i64 {
    fx_add_i(
        fx_add_i(
            fx_add_i(
                fx_add_i(
                    0,
                    fx_mul_i(vt_orient_entry_s(from, to, up, i, 0), vt_trans_entry_s(from, 0, j)),
                ),
                fx_mul_i(vt_orient_entry_s(from, to, up, i, 1), vt_trans_entry_s(from, 1, j)),
            ),
            fx_mul_i(vt_orient_entry_s(from, to, up, i, 2), vt_trans_entry_s(from, 2, j)),
        ),
        fx_mul_i(vt_orient_entry_s(from, to, up, i, 3), vt_trans_entry_s(from, 3, j)),
    )
}

/// Build one 4-entry row.
fn row4(a: i64, b: i64, c: i64, d: i64) -> (r: Vec<i64>)
    ensures
        r@ == seq![a, b, c, d],
{
    let mut v: Vec<i64> = Vec::new();
    v.push(a);
    v.push(b);
    v.push(c);
    v.push(d);
    proof {
        assert(v@ =~= seq![a, b, c, d]);
    }
    v
}

/// Assemble a 4x4 matrix from four rows.
fn mat4(r0: Vec<i64>, r1: Vec<i64>, r2: Vec<i64>, r3: Vec<i64>) -> (r: Matrix)
    requires
        r0@.len() == 4,
        r1@.len() == 4,
        r2@.len() == 4,
        r3@.len() == 4,
    ensures
        r.is_square_s(4),
        r.values@[0]@ == r0@,
        r.values@[1]@ == r1@,
        r.values@[2]@ == r2@,
        r.values@[3]@ == r3@,
{
    let mut values: Vec<Vec<i64>> = Vec::new();
    values.push(r0);
    values.push(r1);
    values.push(r2);
    values.push(r3);
    Matrix { values }
}

impl Matrix {
    /// Translation by (x, y, z).
    pub fn translation(x: i64, y: i64, z: i64) -> (r: Matrix)
        ensures
            r.is_square_s(4),
            r.values@[0]@ == seq![FX_ONE, 0i64, 0i64, x],
            r.values@[1]@ == seq![0i64, FX_ONE, 0i64, y],
            r.values@[2]@ == seq![0i64, 0i64, FX_ONE, z],
            r.values@[3]@ == seq![0i64, 0i64, 0i64, FX_ONE],
    {
        mat4(
            row4(FX_ONE, 0, 0, x),
            row4(0, FX_ONE, 0, y),
            row4(0, 0, FX_ONE, z),
            row4(0, 0, 0, FX_ONE),
        )
    }

    /// Scaling by (x, y, z).
    pub fn scaling(x: i64, y: i64, z: i64) -> (r: Matrix)
        ensures
            r.is_square_s(4),
            r.values@[0]@ == seq![x, 0i64, 0i64, 0i64],
            r.values@[1]@ == seq![0i64, y, 0i64, 0i64],
            r.values@[2]@ == seq![0i64, 0i64, z, 0i64],
            r.values@[3]@ == seq![0i64, 0i64, 0i64, FX_ONE],
    {
        mat4(
            row4(x, 0, 0, 0),
            row4(0, y, 0, 0),
            row4(0, 0, z, 0),
            row4(0, 0, 0, FX_ONE),
        )
    }

    /// Rotation about the x axis, given the angle's sine and cosine.
    pub fn rotation_x(sin: i64, cos: i64) -> (r: Matrix)
        ensures
            r.is_square_s(4),
            r.values@[0]@ == seq![FX_ONE, 0i64, 0i64, 0i64],
            r.values@[1]@ == seq![0i64, cos, fx_neg_i(sin), 0i64],
            r.values@[2]@ == seq![0i64, sin, cos, 0i64],
            r.values@[3]@ == seq![0i64, 0i64, 0i64, FX_ONE],
    {
        mat4(
            row4(FX_ONE, 0, 0, 0),
            row4(0, cos, fx_neg(sin), 0),
            row4(0, sin, cos, 0),
            row4(0, 0, 0, FX_ONE),
        )
    }

    /// Rotation about the y axis, given the angle's sine and cosine.
    pub fn rotation_y(sin: i64, cos: i64) -> (r: Matrix)
        ensures
            r.is_square_s(4),
            r.values@[0]@ == seq![cos, 0i64, sin, 0i64],
            r.values@[1]@ == seq![0i64, FX_ONE, 0i64, 0i64],
            r.values@[2]@ == seq![fx_neg_i(sin), 0i64, cos, 0i64],
            r.values@[3]@ == seq![0i64, 0i64, 0i64, FX_ONE],
    {
        mat4(
            row4(cos, 0, sin, 0),
            row4(0, FX_ONE, 0, 0),
            row4(fx_neg(sin), 0, cos, 0),
            row4(0, 0, 0, FX_ONE),
        )
    }

    /// Rotation about the z axis, given the angle's sine and cosine.
    pub fn rotation_z(sin: i64, cos: i64) -> (r: Matrix)
        ensures
            r.is_square_s(4),
            r.values@[0]@ == seq![cos, fx_neg_i(sin), 0i64, 0i64],
            r.values@[1]@ == seq![sin, cos, 0i64, 0i64],
            r.values@[2]@ == seq![0i64, 0i64, FX_ONE, 0i64],
            r.values@[3]@ == seq![0i64, 0i64, 0i64, FX_ONE],
    {
        mat4(
            row4(cos, fx_neg(sin), 0, 0),
            row4(sin, cos, 0, 0),
            row4(0, 0, FX_ONE, 0),
            row4(0, 0, 0, FX_ONE),
        )
    }

    /// Shear: each axis displaced in proportion to the other two.
    pub fn shearing(x_y: i64, x_z: i64, y_x: i64, y_z: i64, z_x: i64, z_y: i64) -> (r: Matrix)
        ensures
            r.is_square_s(4),
            r.values@[0]@ == seq![FX_ONE, x_y, x_z, 0i64],
            r.values@[1]@ == seq![y_x, FX_ONE, y_z, 0i64],
            r.values@[2]@ == seq![z_x, z_y, FX_ONE, 0i64],
            r.values@[3]@ == seq![0i64, 0i64, 0i64, FX_ONE],
    {
        mat4(
            row4(FX_ONE, x_y, x_z, 0),
            row4(y_x, FX_ONE, y_z, 0),
            row4(z_x, z_y, FX_ONE, 0),
            row4(0, 0, 0, FX_ONE),
        )
    }

    /// The world-to-camera transform looking from `from` toward `to` with the
    /// given up hint.
    pub fn view_transform(from: Tuple, to: Tuple, up: Tuple) -> (r: Matrix)
        requires
            from.is_point_s(),
            to.is_point_s(),
            up.is_vector_s(),
        ensures
            r.is_square_s(4),
            forall|i: int, j: int|
                0 <= i < 4 && 0 <= j < 4 ==> r.entry_s(i, j) == view_transform_entry_s(
                    from,
                    to,
                    up,
                    i,
                    j,
                ),
    {
        let forward: Tuple = to.sub(from).normalize();
        let up_n: Tuple = up.normalize();
        proof {
            assert(up_n.is_vector_s());
        }
        let left: Tuple = forward.cross(&up_n);
        let true_up: Tuple = left.cross(&forward);
        let orientation: Matrix = mat4(
            row4(left.x, left.y, left.z, 0),
            row4(true_up.x, true_up.y, true_up.z, 0),
            row4(fx_neg(forward.x), fx_neg(forward.y), fx_neg(forward.z), 0),
            row4(0, 0, 0, FX_ONE),
        );
        let translation: Matrix = Matrix::translation(fx_neg(from.x), fx_neg(from.y), fx_neg(from.z));
        let r: Matrix = orientation.mul(&translation);
        proof {
            assert forall|i: int, j: int| 0 <= i < 4 && 0 <= j < 4 implies r.entry_s(i, j)
                == view_transform_entry_s(from, to, up, i, j) by {
                reveal_with_fuel(Matrix::mul_sum_s, 5);
                assert(forall|k: int|
                    0 <= k < 4 ==> orientation.entry_s(i, k) == vt_orient_entry_s(
                        from,
                        to,
                        up,
                        i,
                        k,
                    ));
                assert(forall|k: int|
                    0 <= k < 4 ==> translation.entry_s(k, j) == vt_trans_entry_s(from, k, j));
            }
        }
        r
    }
}

} // verus!
