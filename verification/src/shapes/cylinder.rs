//! The infinite cylinder of unit radius about the local y axis.

use vstd::prelude::*;
use crate::fx::fx_add;
use crate::fx::fx_add_i;
use crate::fx::fx_div;
use crate::fx::fx_div_i;
use crate::fx::fx_mul;
use crate::fx::fx_mul_i;
use crate::fx::fx_neg;
use crate::fx::fx_neg_i;
use crate::fx::fx_sqrt;
use crate::fx::fx_sqrt_i;
use crate::fx::fx_sub;
use crate::fx::fx_sub_i;
use crate::fx::lemma_fx_square_nonneg;
use crate::fx::EPSILON;
use crate::fx::FX_FOUR;
use crate::fx::FX_MAX;
use crate::fx::FX_MIN;
use crate::fx::FX_ONE;
use crate::fx::FX_TWO;
use crate::intersection::IntersectionList;
use crate::intersection::sorted_by_t_s;
use crate::material::Material;
use crate::matrix::Matrix;
use crate::matrix::lemma_identity_det;
use crate::ray::Ray;
use crate::shape::Object;
use crate::shape::ShapeType;
use crate::shape::wrap_ts;
use crate::shape::wrap_ts_s;
use crate::tuple::Tuple;

verus! {

/// The y bounds are carried for scene description but the surface is
/// uncapped: intersection treats the cylinder as infinite.
#[derive(Clone, Copy, Debug)]
pub struct Cylinder {
    pub minimum: i64,
    pub maximum: i64,
}

impl Cylinder {
    pub open spec fn quad_a_s(self, ray: Ray) -> i64 {
        fx_add_i(
            fx_mul_i(ray.direction.x, ray.direction.x),
            fx_mul_i(ray.direction.z, ray.direction.z),
        )
    }

    pub open spec fn quad_b_s(self, ray: Ray) -> i64 {
        fx_add_i(
            fx_mul_i(fx_mul_i(FX_TWO, ray.origin.x), ray.direction.x),
            fx_mul_i(fx_mul_i(FX_TWO, ray.origin.z), ray.direction.z),
        )
    }

    pub open spec fn quad_c_s(self, ray: Ray) -> i64 {
        fx_sub_i(
            fx_add_i(fx_mul_i(ray.origin.x, ray.origin.x), fx_mul_i(ray.origin.z, ray.origin.z)),
            FX_ONE,
        )
    }

    pub open spec fn discriminant_s(self, ray: Ray) -> i64 {
        fx_sub_i(
            fx_mul_i(self.quad_b_s(ray), self.quad_b_s(ray)),
            fx_mul_i(fx_mul_i(FX_FOUR, self.quad_a_s(ray)), self.quad_c_s(ray)),
        )
    }

    /// A ray within epsilon of parallel to the axis misses; otherwise the
    /// quadratic in x and z gives the two roots `(-b -+ sqrt(disc)) / (2a)`,
    /// or none when the discriminant is negative.
    pub open spec fn local_ts_s(self, ray: Ray) -> Seq<i64> {
        let a = self.quad_a_s(ray);
        if a <= EPSILON {
            Seq::empty()
        } else if self.discriminant_s(ray) < 0 {
            Seq::empty()
        } else {
            let s = fx_sqrt_i(self.discriminant_s(ray));
            let b = self.quad_b_s(ray);
            let two_a = fx_mul_i(FX_TWO, a);
            seq![
                fx_div_i(fx_sub_i(fx_neg_i(b), s), two_a),
                fx_div_i(fx_add_i(fx_neg_i(b), s), two_a),
            ]
        }
    }

    /// The outward normal points radially away from the axis.
    pub open spec fn local_normal_s(self, point: Tuple) -> Tuple {
        Tuple { x: point.x, y: 0, z: point.z, w: 0 }
    }

    /// An infinite cylinder wrapped in an object with the identity transform
    /// and the given (or default) material.
    pub fn new(material_opt: Option<Material>) -> (r: Object)
        requires
            match material_opt {
                Some(m) => m.wf_s(),
                None => true,
            },
        ensures
            r.wf_s(),
            r.shape == ShapeType::Cylinder(Cylinder { minimum: FX_MIN, maximum: FX_MAX }),
            r.material == (match material_opt {
                Some(m) => m,
                None => Material::default_s(),
            }),
            r.transform.is_square_s(4),
            forall|i: int, j: int|
                0 <= i < 4 && 0 <= j < 4 ==> r.transform.entry_s(i, j) == (if i == j {
                    FX_ONE
                } else {
                    0i64
                }),
    {
        let material: Material = match material_opt {
            Some(x) => x,
            None => Material::new(),
        };
        let transform: Matrix = Matrix::identity(4);
        proof {
            lemma_identity_det(transform);
        }
        Object {
            transform,
            shape: ShapeType::Cylinder(Cylinder { minimum: FX_MIN, maximum: FX_MAX }),
            material,
        }
    }

    /// The raw roots of the quadratic along the local ray.
    pub fn local_ts(&self, ray_obj_space: &Ray) -> (r: Vec<i64>)
        ensures
            r@ == self.local_ts_s(*ray_obj_space),
    {
        proof {
            lemma_fx_square_nonneg(ray_obj_space.direction.x);
            lemma_fx_square_nonneg(ray_obj_space.direction.z);
        }
        let a: i64 = fx_add(
            fx_mul(ray_obj_space.direction.x, ray_obj_space.direction.x),
            fx_mul(ray_obj_space.direction.z, ray_obj_space.direction.z),
        );
        let mut ts: Vec<i64> = Vec::new();
        if a <= EPSILON {
            proof {
                assert(ts@ =~= self.local_ts_s(*ray_obj_space));
            }
            return ts;
        }
        let b: i64 = fx_add(
            fx_mul(fx_mul(FX_TWO, ray_obj_space.origin.x), ray_obj_space.direction.x),
            fx_mul(fx_mul(FX_TWO, ray_obj_space.origin.z), ray_obj_space.direction.z),
        );
        let c: i64 = fx_sub(
            fx_add(
                fx_mul(ray_obj_space.origin.x, ray_obj_space.origin.x),
                fx_mul(ray_obj_space.origin.z, ray_obj_space.origin.z),
            ),
            FX_ONE,
        );
        let discriminant: i64 = fx_sub(fx_mul(b, b), fx_mul(fx_mul(FX_FOUR, a), c));
        if discriminant < 0 {
            proof {
                assert(ts@ =~= self.local_ts_s(*ray_obj_space));
            }
            return ts;
        }
        let s: i64 = fx_sqrt(discriminant);
        let two_a: i64 = fx_mul(FX_TWO, a);
        let t0: i64 = fx_div(fx_sub(fx_neg(b), s), two_a);
        let t1: i64 = fx_div(fx_add(fx_neg(b), s), two_a);
        ts.push(t0);
        ts.push(t1);
        proof {
            assert(ts@ =~= self.local_ts_s(*ray_obj_space));
        }
        ts
    }

    /// The candidate intersections of the local ray, tagged with the owning
    /// object's index.
    pub fn local_intersect(&self, ray_obj_space: &Ray, object_index: usize) -> (r:
        IntersectionList)
        ensures
            r.intersections@ == wrap_ts_s(self.local_ts_s(*ray_obj_space), object_index),
            sorted_by_t_s(r.intersections@),
    {
        wrap_ts(self.local_ts(ray_obj_space), object_index)
    }

    pub fn local_normal_at(&self, object_space_point: Tuple) -> (r: Tuple)
        ensures
            r == self.local_normal_s(object_space_point),
            r.is_vector_s(),
    {
        Tuple::vector(object_space_point.x, 0, object_space_point.z)
    }
}

} // verus!
