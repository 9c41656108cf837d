//! Homogeneous 3D tuples: points (`w == 1`) and vectors (`w == 0`).

use vstd::prelude::*;
use crate::fx::fx_add;
use crate::fx::fx_add_i;
use crate::fx::fx_sub;
use crate::fx::fx_sub_i;
use crate::fx::fx_neg;
use crate::fx::fx_neg_i;
use crate::fx::fx_mul;
use crate::fx::fx_mul_i;
use crate::fx::fx_div;
use crate::fx::fx_div_i;
use crate::fx::fx_sqrt;
use crate::fx::fx_sqrt_i;
use crate::fx::lemma_fx_square_nonneg;
use crate::fx::abs_s;
use crate::fx::FX_ONE;

verus! {

#[derive(Clone, Copy, Debug, PartialEq, Eq, Structural)]
pub struct Tuple {
    pub x: i64,
    pub y: i64,
    pub z: i64,
    pub w: i64,
}

impl Tuple {
    pub open spec fn is_point_s(self) -> bool {
        self.w == FX_ONE
    }

    pub open spec fn is_vector_s(self) -> bool {
        self.w == 0
    }

    pub open spec fn add_s(self, rhs: Tuple) -> Tuple {
        Tuple {
            x: fx_add_i(self.x, rhs.x),
            y: fx_add_i(self.y, rhs.y),
            z: fx_add_i(self.z, rhs.z),
            w: fx_add_i(self.w, rhs.w),
        }
    }

    pub open spec fn sub_s(self, rhs: Tuple) -> Tuple {
        Tuple {
            x: fx_sub_i(self.x, rhs.x),
            y: fx_sub_i(self.y, rhs.y),
            z: fx_sub_i(self.z, rhs.z),
            w: fx_sub_i(self.w, rhs.w),
        }
    }

    pub open spec fn neg_s(self) -> Tuple {
        Tuple {
            x: fx_neg_i(self.x),
            y: fx_neg_i(self.y),
            z: fx_neg_i(self.z),
            w: fx_neg_i(self.w),
        }
    }

    pub open spec fn mul_s(self, rhs: i64) -> Tuple {
        Tuple {
            x: fx_mul_i(self.x, rhs),
            y: fx_mul_i(self.y, rhs),
            z: fx_mul_i(self.z, rhs),
            w: fx_mul_i(self.w, rhs),
        }
    }

    pub open spec fn div_s(self, rhs: i64) -> Tuple {
        Tuple {
            x: fx_div_i(self.x, rhs),
            y: fx_div_i(self.y, rhs),
            z: fx_div_i(self.z, rhs),
            w: fx_div_i(self.w, rhs),
        }
    }

    /// Three-component dot product, left-to-right sum.
    pub open spec fn dot_s(self, rhs: Tuple) -> i64 {
        fx_add_i(
            fx_add_i(fx_mul_i(self.x, rhs.x), fx_mul_i(self.y, rhs.y)),
            fx_mul_i(self.z, rhs.z),
        )
    }

    pub open spec fn magnitude_s(self) -> i64 {
        fx_sqrt_i(self.dot_s(self))
    }

    pub open spec fn normalize_s(self) -> Tuple {
        self.div_s(self.magnitude_s())
    }

    pub open spec fn cross_s(self, rhs: Tuple) -> Tuple {
        Tuple {
            x: fx_sub_i(fx_mul_i(self.y, rhs.z), fx_mul_i(self.z, rhs.y)),
            y: fx_sub_i(fx_mul_i(self.z, rhs.x), fx_mul_i(self.x, rhs.z)),
            z: fx_sub_i(fx_mul_i(self.x, rhs.y), fx_mul_i(self.y, rhs.x)),
            w: 0,
        }
    }

    /// The direction mirrored about `normal`: `self - normal * 2 * (self . normal)`.
    pub open spec fn reflect_s(self, normal: Tuple) -> Tuple {
        self.sub_s(normal.mul_s((2 * FX_ONE) as i64).mul_s(self.dot_s(normal)))
    }

    pub fn new(x: i64, y: i64, z: i64, w: i64) -> (r: Tuple)
        ensures
            r == (Tuple { x, y, z, w }),
    {
        Tuple { x, y, z, w }
    }

    pub fn is_vector(&self) -> (r: bool)
        ensures
            r == self.is_vector_s(),
    {
        self.w == 0
    }

    pub fn is_point(&self) -> (r: bool)
        ensures
            r == self.is_point_s(),
    {
        self.w == FX_ONE
    }

    pub fn point(x: i64, y: i64, z: i64) -> (r: Tuple)
        ensures
            r == (Tuple { x, y, z, w: FX_ONE }),
            r.is_point_s(),
    {
        Tuple { x, y, z, w: FX_ONE }
    }

    pub fn vector(x: i64, y: i64, z: i64) -> (r: Tuple)
        ensures
            r == (Tuple { x, y, z, w: 0 }),
            r.is_vector_s(),
    {
        Tuple { x, y, z, w: 0 }
    }

    pub fn add(self, rhs: Tuple) -> (r: Tuple)
        ensures
            r == self.add_s(rhs),
    {
        Tuple {
            x: fx_add(self.x, rhs.x),
            y: fx_add(self.y, rhs.y),
            z: fx_add(self.z, rhs.z),
            w: fx_add(self.w, rhs.w),
        }
    }

    pub fn add_assign(&mut self, rhs: Tuple)
        ensures
            *final(self) == old(self).add_s(rhs),
    {
        *self = self.add(rhs);
    }

    pub fn sub(self, rhs: Tuple) -> (r: Tuple)
        ensures
            r == self.sub_s(rhs),
    {
        Tuple {
            x: fx_sub(self.x, rhs.x),
            y: fx_sub(self.y, rhs.y),
            z: fx_sub(self.z, rhs.z),
            w: fx_sub(self.w, rhs.w),
        }
    }

    pub fn neg(self) -> (r: Tuple)
        ensures
            r == self.neg_s(),
    {
        Tuple { x: fx_neg(self.x), y: fx_neg(self.y), z: fx_neg(self.z), w: fx_neg(self.w) }
    }

    /// Scale every component by a scalar.
    pub fn mul(self, rhs: i64) -> (r: Tuple)
        ensures
            r == self.mul_s(rhs),
    {
        Tuple {
            x: fx_mul(self.x, rhs),
            y: fx_mul(self.y, rhs),
            z: fx_mul(self.z, rhs),
            w: fx_mul(self.w, rhs),
        }
    }

    /// Divide every component by a scalar.
    pub fn div(self, rhs: i64) -> (r: Tuple)
        ensures
            r == self.div_s(rhs),
    {
        Tuple {
            x: fx_div(self.x, rhs),
            y: fx_div(self.y, rhs),
            z: fx_div(self.z, rhs),
            w: fx_div(self.w, rhs),
        }
    }

    pub fn dot(&self, rhs: &Tuple) -> (r: i64)
        requires
            rhs.is_vector_s(),
        ensures
            r == self.dot_s(*rhs),
    {
        fx_add(
            fx_add(fx_mul(self.x, rhs.x), fx_mul(self.y, rhs.y)),
            fx_mul(self.z, rhs.z),
        )
    }

    pub fn magnitude(&self) -> (r: i64)
        ensures
            r == self.magnitude_s(),
            r >= 0,
    {
        proof {
            lemma_fx_square_nonneg(self.x);
            lemma_fx_square_nonneg(self.y);
            lemma_fx_square_nonneg(self.z);
        }
        let m2: i64 = fx_add(
            fx_add(fx_mul(self.x, self.x), fx_mul(self.y, self.y)),
            fx_mul(self.z, self.z),
        );
        fx_sqrt(m2)
    }

    pub fn normalize(&self) -> (r: Tuple)
        ensures
            r == self.normalize_s(),
    {
        let m: i64 = self.magnitude();
        self.div(m)
    }

    pub fn cross(&self, rhs: &Tuple) -> (r: Tuple)
        requires
            rhs.is_vector_s(),
        ensures
            r == self.cross_s(*rhs),
            r.is_vector_s(),
    {
        Tuple::vector(
            fx_sub(fx_mul(self.y, rhs.z), fx_mul(self.z, rhs.y)),
            fx_sub(fx_mul(self.z, rhs.x), fx_mul(self.x, rhs.z)),
            fx_sub(fx_mul(self.x, rhs.y), fx_mul(self.y, rhs.x)),
        )
    }

    pub fn to_vector(&self) -> (r: Vec<i64>)
        ensures
            r@ == seq![self.x, self.y, self.z, self.w],
    {
        let mut v: Vec<i64> = Vec::new();
        v.push(self.x);
        v.push(self.y);
        v.push(self.z);
        v.push(self.w);
        proof {
            assert(v@ =~= seq![self.x, self.y, self.z, self.w]);
        }
        v
    }

    pub fn reflect(&self, normal: &Tuple) -> (r: Tuple)
        requires
            self.is_vector_s(),
            normal.is_vector_s(),
        ensures
            r == self.reflect_s(*normal),
    {
        let d: i64 = self.dot(normal);
        self.sub(normal.mul(2 * FX_ONE).mul(d))
    }

    /// Componentwise comparison within a tolerance, for callers comparing
    /// quantized results.
    pub fn approx_equals(&self, other: &Tuple, tol: i64) -> (r: bool)
        requires
            tol >= 0,
        ensures
            r == (abs_s(self.x - other.x) <= tol && abs_s(self.y - other.y) <= tol && abs_s(
                self.z - other.z,
            ) <= tol && abs_s(self.w - other.w) <= tol),
    {
        let dx: i128 = self.x as i128 - other.x as i128;
        let dy: i128 = self.y as i128 - other.y as i128;
        let dz: i128 = self.z as i128 - other.z as i128;
        let dw: i128 = self.w as i128 - other.w as i128;
        let t: i128 = tol as i128;
        -t <= dx && dx <= t && -t <= dy && dy <= t && -t <= dz && dz <= t && -t <= dw && dw <= t
    }
}

} // verus!
