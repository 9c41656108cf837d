//! The axis-aligned unit cube spanning [-1, 1] on each axis.

use vstd::prelude::*;
use crate::fx::fx_abs_i;
use crate::fx::fx_abs;
use crate::fx::fx_div;
use crate::fx::fx_div_i;
use crate::fx::fx_neg;
use crate::fx::fx_neg_i;
use crate::fx::fx_sub;
use crate::fx::fx_sub_i;
use crate::fx::max_i;
use crate::fx::min_i;
use crate::fx::FX_MIN;
use crate::fx::FX_ONE;
use crate::intersection::IntersectionList;
use crate::intersection::sorted_by_t_s;
use crate::material::Material;
use crate::matrix::Matrix;
use crate::matrix::lemma_identity_det;
use crate::ray::Ray;
use crate::shape::Object;
use crate::shape::ShapeType;
use crate::shape::wrap_ts;
use crate::shape::wrap_ts_s;
use crate::tuple::Tuple;

verus! {

#[derive(Clone, Copy, Debug)]
pub struct Cube;

/// Entry and exit distances of the ray through one axis slab, in order. A
/// zero direction component divides by zero, which the scalar arithmetic
/// turns into a saturated value standing in for a signed infinity.
pub open spec fn check_axis_s(origin: i64, direction: i64) -> (i64, i64) {
    let tmin = fx_div_i(fx_sub_i(fx_neg_i(FX_ONE), origin), direction);
    let tmax = fx_div_i(fx_sub_i(FX_ONE, origin), direction);
    if tmin > tmax {
        (tmax, tmin)
    } else {
        (tmin, tmax)
    }
}

impl Cube {
    /// Slab test: the ray is inside the cube between the largest per-axis
    /// entry and the smallest per-axis exit; it misses when that window is
    /// empty.
    pub open spec fn local_ts_s(self, ray: Ray) -> Seq<i64> {
        let xt = check_axis_s(ray.origin.x, ray.direction.x);
        let yt = check_axis_s(ray.origin.y, ray.direction.y);
        let zt = check_axis_s(ray.origin.z, ray.direction.z);
        let tmin = max_i(max_i(max_i(FX_MIN, xt.0), yt.0), zt.0);
        let tmax = min_i(min_i(min_i(crate::fx::FX_MAX, xt.1), yt.1), zt.1);
        if tmin > tmax {
            Seq::empty()
        } else {
            seq![tmin, tmax]
        }
    }

    /// The face normal follows the coordinate of greatest magnitude; on an
    /// edge or corner the tie goes to x, then y, then z.
    pub open spec fn local_normal_s(self, point: Tuple) -> Tuple {
        let ax = fx_abs_i(point.x);
        let ay = fx_abs_i(point.y);
        let az = fx_abs_i(point.z);
        let maxc = max_i(max_i(max_i(FX_MIN, ax), ay), az);
        if maxc == ax {
            Tuple { x: point.x, y: 0, z: 0, w: 0 }
        } else if maxc == ay {
            Tuple { x: 0, y: point.y, z: 0, w: 0 }
        } else {
            Tuple { x: 0, y: 0, z: point.z, w: 0 }
        }
    }

    /// A unit cube wrapped in an object with the identity transform and the
    /// given (or default) material.
    pub fn new(material_opt: Option<Material>) -> (r: Object)
        requires
            match material_opt {
                Some(m) => m.wf_s(),
                None => true,
            },
        ensures
            r.wf_s(),
            r.shape == ShapeType::Cube(Cube),
            r.material == (match material_opt {
                Some(m) => m,
                None => Material::default_s(),
            }),
            r.transform.is_square_s(4),
            forall|i: int, j: int|
                0 <= i < 4 && 0 <= j < 4 ==> r.transform.entry_s(i, j) == (if i == j {
                    FX_ONE
                } else {
                    0i64
                }),
    {
        let material: Material = match material_opt {
            Some(x) => x,
            None => Material::new(),
        };
        let transform: Matrix = Matrix::identity(4);
        proof {
            lemma_identity_det(transform);
        }
        Object { transform, shape: ShapeType::Cube(Cube), material }
    }

    fn check_axis(&self, origin: i64, direction: i64) -> (r: (i64, i64))
        ensures
            r == check_axis_s(origin, direction),
    {
        let tmin_numerator: i64 = fx_sub(fx_neg(FX_ONE), origin);
        let tmax_numerator: i64 = fx_sub(FX_ONE, origin);
        let tmin: i64 = fx_div(tmin_numerator, direction);
        let tmax: i64 = fx_div(tmax_numerator, direction);
        if tmin > tmax {
            (tmax, tmin)
        } else {
            (tmin, tmax)
        }
    }

    /// The raw entry/exit roots along the local ray, if it hits.
    pub fn local_ts(&self, ray_obj_space: &Ray) -> (r: Vec<i64>)
        ensures
            r@ == self.local_ts_s(*ray_obj_space),
    {
        let (xtmin, xtmax) = self.check_axis(ray_obj_space.origin.x, ray_obj_space.direction.x);
        let (ytmin, ytmax) = self.check_axis(ray_obj_space.origin.y, ray_obj_space.direction.y);
        let (ztmin, ztmax) = self.check_axis(ray_obj_space.origin.z, ray_obj_space.direction.z);

        let mut tmin: i64 = FX_MIN;
        if xtmin > tmin {
            tmin = xtmin;
        }
        if ytmin > tmin {
            tmin = ytmin;
        }
        if ztmin > tmin {
            tmin = ztmin;
        }
        let mut tmax: i64 = crate::fx::FX_MAX;
        if xtmax < tmax {
            tmax = xtmax;
        }
        if ytmax < tmax {
            tmax = ytmax;
        }
        if ztmax < tmax {
            tmax = ztmax;
        }

        let mut ts: Vec<i64> = Vec::new();
        if tmin <= tmax {
            ts.push(tmin);
            ts.push(tmax);
            proof {
                assert(ts@ =~= self.local_ts_s(*ray_obj_space));
            }
        } else {
            proof {
                assert(ts@ =~= self.local_ts_s(*ray_obj_space));
            }
        }
        ts
    }

    /// The candidate intersections of the local ray, tagged with the owning
    /// object's index.
    pub fn local_intersect(&self, ray_obj_space: &Ray, object_index: usize) -> (r:
        IntersectionList)
        ensures
            r.intersections@ == wrap_ts_s(self.local_ts_s(*ray_obj_space), object_index),
            sorted_by_t_s(r.intersections@),
    {
        wrap_ts(self.local_ts(ray_obj_space), object_index)
    }

    pub fn local_normal_at(&self, object_space_point: Tuple) -> (r: Tuple)
        ensures
            r == self.local_normal_s(object_space_point),
            r.is_vector_s(),
    {
        let ax: i64 = fx_abs(object_space_point.x);
        let ay: i64 = fx_abs(object_space_point.y);
        let az: i64 = fx_abs(object_space_point.z);
        let mut maxc: i64 = FX_MIN;
        if ax > maxc {
            maxc = ax;
        }
        if ay > maxc {
            maxc = ay;
        }
        if az > maxc {
            maxc = az;
        }
        if maxc == ax {
            Tuple::vector(object_space_point.x, 0, 0)
        } else if maxc == ay {
            Tuple::vector(0, object_space_point.y, 0)
        } else {
            Tuple::vector(0, 0, object_space_point.z)
        }
    }
}

} // verus!
