//! The infinite plane spanning local x and z at `y == 0`.

use vstd::prelude::*;
use crate::fx::abs_s;
use crate::fx::fx_div;
use crate::fx::fx_div_i;
use crate::fx::fx_neg;
use crate::fx::fx_neg_i;
use crate::fx::EPSILON;
use crate::fx::FX_ONE;
use crate::intersection::IntersectionList;
use crate::intersection::sorted_by_t_s;
use crate::material::Material;
use crate::matrix::Matrix;
use crate::matrix::lemma_identity_det;
use crate::ray::Ray;
use crate::shape::Object;
use crate::shape::ShapeType;
use crate::shape::wrap_ts;
use crate::shape::wrap_ts_s;
use crate::tuple::Tuple;

verus! {

#[derive(Clone, Copy, Debug)]
pub struct Plane;

impl Plane {
    /// A ray parallel to the plane (|direction.y| below the surface epsilon)
    /// misses; any other crosses once at `-origin.y / direction.y`.
    pub open spec fn local_ts_s(self, ray: Ray) -> Seq<i64> {
        if abs_s(ray.direction.y as int) < EPSILON {
            Seq::empty()
        } else {
            seq![fx_div_i(fx_neg_i(ray.origin.y), ray.direction.y)]
        }
    }

    /// The outward normal is constant +y.
    pub open spec fn local_normal_s(self, point: Tuple) -> Tuple {
        Tuple { x: 0, y: FX_ONE, z: 0, w: 0 }
    }

    /// A plane wrapped in an object with the identity transform and the
    /// given (or default) material.
    pub fn new(material: Option<Material>) -> (r: Object)
        requires
            match material {
                Some(m) => m.wf_s(),
                None => true,
            },
        ensures
            r.wf_s(),
            r.shape == ShapeType::Plane(Plane),
            r.material == (match material {
                Some(m) => m,
                None => Material::default_s(),
            }),
            r.transform.is_square_s(4),
            forall|i: int, j: int|
                0 <= i < 4 && 0 <= j < 4 ==> r.transform.entry_s(i, j) == (if i == j {
                    FX_ONE
                } else {
                    0i64
                }),
    {
        let material: Material = match material {
            Some(x) => x,
            None => Material::new(),
        };
        let transform: Matrix = Matrix::identity(4);
        proof {
            lemma_identity_det(transform);
        }
        Object { transform, shape: ShapeType::Plane(Plane), material }
    }

    /// Same construction as `new`, under the name the scene builders use.
    pub fn object_new(material_opt: Option<Material>) -> (r: Object)
        requires
            match material_opt {
                Some(m) => m.wf_s(),
                None => true,
            },
        ensures
            r.wf_s(),
            r.shape == ShapeType::Plane(Plane),
            r.material == (match material_opt {
                Some(m) => m,
                None => Material::default_s(),
            }),
            r.transform.is_square_s(4),
            forall|i: int, j: int|
                0 <= i < 4 && 0 <= j < 4 ==> r.transform.entry_s(i, j) == (if i == j {
                    FX_ONE
                } else {
                    0i64
                }),
    {
        Plane::new(material_opt)
    }

    /// The raw root along the local ray, if any.
    pub fn local_ts(&self, ray_obj_space: &Ray) -> (r: Vec<i64>)
        ensures
            r@ == self.local_ts_s(*ray_obj_space),
    {
        let mut ts: Vec<i64> = Vec::new();
        let dy: i64 = ray_obj_space.direction.y;
        let mag: i64 = if dy < 0 {
            fx_neg(dy)
        } else {
            dy
        };
        if mag < EPSILON {
            proof {
                assert(ts@ =~= self.local_ts_s(*ray_obj_space));
            }
        } else {
            ts.push(fx_div(fx_neg(ray_obj_space.origin.y), dy));
            proof {
                assert(ts@ =~= self.local_ts_s(*ray_obj_space));
            }
        }
        ts
    }

    /// The candidate intersections of the local ray, tagged with the owning
    /// object's index.
    pub fn local_object_intersect(&self, ray_obj_space: &Ray, object_index: usize) -> (r:
        IntersectionList)
        ensures
            r.intersections@ == wrap_ts_s(self.local_ts_s(*ray_obj_space), object_index),
            sorted_by_t_s(r.intersections@),
    {
        wrap_ts(self.local_ts(ray_obj_space), object_index)
    }

    pub fn local_object_normal(&self, object_space_point: Tuple) -> (r: Tuple)
        ensures
            r == self.local_normal_s(object_space_point),
            r.is_vector_s(),
    {
        Tuple::vector(0, FX_ONE, 0)
    }

    pub fn local_normal_at(&self, object_space_point: Tuple) -> (r: Tuple)
        ensures
            r == self.local_normal_s(object_space_point),
            r.is_vector_s(),
    {
        Tuple::vector(0, FX_ONE, 0)
    }
}

/// The plane's local normal is exactly the unit +y vector: unit length
/// under the scalar arithmetic and orthogonal to both tangent directions of
/// the surface.
pub proof fn lemma_plane_normal_unit(p: Plane, point: Tuple)
    ensures
        p.local_normal_s(point).is_vector_s(),
        p.local_normal_s(point).dot_s(p.local_normal_s(point)) == FX_ONE,
        p.local_normal_s(point).dot_s(Tuple { x: FX_ONE, y: 0, z: 0, w: 0 }) == 0,
        p.local_normal_s(point).dot_s(Tuple { x: 0, y: 0, z: FX_ONE, w: 0 }) == 0,
{
    crate::fx::lemma_fx_mul_one(FX_ONE);
    crate::fx::lemma_fx_mul_zero(FX_ONE);
    crate::fx::lemma_fx_mul_zero(0);
    crate::fx::lemma_fx_add_zero(FX_ONE);
    crate::fx::lemma_fx_add_zero(0);
}

} // verus!
