//! The closed set of shape variants and the world-space object wrapper:
//! a shape together with its transform and material.

use vstd::prelude::*;
use crate::fx::FX_ONE;
use crate::intersection::Intersection;
use crate::intersection::IntersectionList;
use crate::intersection::sort_by_t_s;
use crate::intersection::sorted_by_t_s;
use crate::material::Material;
use crate::matrix::Matrix;
use crate::plane::Plane;
use crate::ray::Ray;
use crate::shapes::cube::Cube;
use crate::shapes::cylinder::Cylinder;
use crate::sphere::Sphere;
use crate::tuple::Tuple;

verus! {

/// Bounce budget for reflected rays.
pub const MAX_REFLECTIONS: u8 = 5;

/// Bounce budget for refracted rays.
pub const MAX_REFRACTIONS: u8 = 5;

#[derive(Clone, Debug)]
pub enum ShapeType {
    Sphere(Sphere),
    Plane(Plane),
    Cube(Cube),
    Cylinder(Cylinder),
}

#[derive(Clone, Debug)]
pub struct Object {
    pub transform: Matrix,
    pub shape: ShapeType,
    pub material: Material,
}

/// Wrap object-space roots into intersections against `object_index` and
/// sort them ascending by `t`.
pub open spec fn wrap_ts_s(ts: Seq<i64>, object_index: usize) -> Seq<Intersection> {
    sort_by_t_s(ts.map_values(|t: i64| Intersection { t, object: object_index }))
}

pub fn wrap_ts(ts: Vec<i64>, object_index: usize) -> (r: IntersectionList)
    ensures
        r.intersections@ == wrap_ts_s(ts@, object_index),
        sorted_by_t_s(r.intersections@),
        r.intersections@.len() == ts@.len(),
{
    let n: usize = ts.len();
    let mut v: Vec<Intersection> = Vec::new();
    let mut i: usize = 0;
    while i < n
        invariant
            i <= n,
            n == ts@.len(),
            v@ == ts@.take(i as int).map_values(|t: i64| Intersection { t, object: object_index }),
        decreases n - i,
    {
        v.push(Intersection::new(ts[i], object_index));
        proof {
            assert(v@ =~= ts@.take(i + 1).map_values(
                |t: i64| Intersection { t, object: object_index },
            ));
        }
        i = i + 1;
    }
    proof {
        assert(ts@.take(n as int) == ts@);
    }
    IntersectionList::new(v)
}

/// Every wrapped intersection is tagged with the given object index.
pub proof fn lemma_wrap_ts_objects(ts: Seq<i64>, index: usize)
    ensures
        forall|k: int|
            0 <= k < wrap_ts_s(ts, index).len() ==> (#[trigger] wrap_ts_s(ts, index)[k]).object
                == index,
{
    let mapped = ts.map_values(|t: i64| Intersection { t, object: index });
    crate::intersection::lemma_sort_contains(mapped);
    assert forall|k: int| 0 <= k < wrap_ts_s(ts, index).len() implies (#[trigger] wrap_ts_s(
        ts,
        index,
    )[k]).object == index by {
        let e = wrap_ts_s(ts, index)[k];
        assert(wrap_ts_s(ts, index).contains(e));
        assert(mapped.contains(e));
        let j = choose|j: int| 0 <= j < mapped.len() && mapped[j] == e;
        assert(mapped[j].object == index);
    }
}

impl Object {
    /// What the shape variant itself asks of its fields.
    pub open spec fn shape_wf_s(self) -> bool {
        match self.shape {
            ShapeType::Sphere(s) => s.center.is_point_s(),
            ShapeType::Plane(_) => true,
            ShapeType::Cube(_) => true,
            ShapeType::Cylinder(_) => true,
        }
    }

    /// A usable object: an invertible affine transform, a sound shape and a
    /// sound material.
    pub open spec fn wf_s(self) -> bool {
        &&& self.transform.is_square_s(4)
        &&& self.transform.det_s() != 0
        &&& self.shape_wf_s()
        &&& self.material.wf_s()
    }

    /// Object-space roots of the ray, by shape variant.
    pub open spec fn local_ts_s(self, ray: Ray) -> Seq<i64> {
        match self.shape {
            ShapeType::Sphere(s) => s.local_ts_s(ray),
            ShapeType::Plane(p) => p.local_ts_s(ray),
            ShapeType::Cube(c) => c.local_ts_s(ray),
            ShapeType::Cylinder(c) => c.local_ts_s(ray),
        }
    }

    /// Object-space outward normal at a local point, by shape variant.
    pub open spec fn local_normal_s(self, point: Tuple) -> Tuple {
        match self.shape {
            ShapeType::Sphere(s) => s.local_normal_s(point),
            ShapeType::Plane(p) => p.local_normal_s(point),
            ShapeType::Cube(c) => c.local_normal_s(point),
            ShapeType::Cylinder(c) => c.local_normal_s(point),
        }
    }

    fn local_intersect(&self, ray_obj_space: &Ray) -> (r: Vec<i64>)
        requires
            self.shape_wf_s(),
            ray_obj_space.wf_s(),
        ensures
            r@ == self.local_ts_s(*ray_obj_space),
    {
        match &self.shape {
            ShapeType::Sphere(sphere) => sphere.local_ts(ray_obj_space),
            ShapeType::Plane(plane) => plane.local_ts(ray_obj_space),
            ShapeType::Cube(cube) => cube.local_ts(ray_obj_space),
            ShapeType::Cylinder(cylinder) => cylinder.local_ts(ray_obj_space),
        }
    }

    fn local_normal_at(&self, point: Tuple) -> (r: Tuple)
        ensures
            r == self.local_normal_s(point),
            r.is_vector_s(),
    {
        match &self.shape {
            ShapeType::Sphere(sphere) => sphere.local_normal_at(point),
            ShapeType::Plane(plane) => plane.local_normal_at(point),
            ShapeType::Cube(cube) => cube.local_normal_at(point),
            ShapeType::Cylinder(cylinder) => cylinder.local_normal_at(point),
        }
    }

    /// The ray carried into object space by the inverse transform. An affine
    /// transform maps points to points and vectors to vectors, so the
    /// homogeneous coordinate is re-pinned exactly; the clamped arithmetic
    /// could otherwise smudge it by a few units.
    pub open spec fn object_ray_s(self, ray: Ray) -> Ray {
        let o = self.transform.inv_mul_tuple_s(ray.origin);
        let d = self.transform.inv_mul_tuple_s(ray.direction);
        Ray {
            origin: Tuple { x: o.x, y: o.y, z: o.z, w: FX_ONE },
            direction: Tuple { x: d.x, y: d.y, z: d.z, w: 0 },
        }
    }

    /// All candidate intersections of the world-space ray with this object,
    /// tagged with the object's index and sorted ascending by `t`.
    pub open spec fn intersections_s(self, ray: Ray, index: usize) -> Seq<Intersection> {
        wrap_ts_s(self.local_ts_s(self.object_ray_s(ray)), index)
    }

    pub fn intersect(&self, ray: &Ray, index: usize) -> (r: IntersectionList)
        requires
            self.wf_s(),
            ray.wf_s(),
        ensures
            r.intersections@ == self.intersections_s(*ray, index),
            sorted_by_t_s(r.intersections@),
    {
        let inv: Matrix = self.transform.inverse();
        let o: Tuple = inv.mul_tuple(ray.origin);
        let d: Tuple = inv.mul_tuple(ray.direction);
        let ray_obj_space: Ray = Ray {
            origin: Tuple::point(o.x, o.y, o.z),
            direction: Tuple::vector(d.x, d.y, d.z),
        };
        proof {
            assert(ray_obj_space == self.object_ray_s(*ray));
        }
        let ts: Vec<i64> = self.local_intersect(&ray_obj_space);
        wrap_ts(ts, index)
    }

    /// The world-space surface normal at `point`: the object-space normal
    /// pushed back through the transposed inverse transform, its homogeneous
    /// coordinate cleared, normalized.
    pub open spec fn normal_at_s(self, point: Tuple) -> Tuple {
        let op = self.transform.inv_mul_tuple_s(point);
        let object_point = Tuple { x: op.x, y: op.y, z: op.z, w: FX_ONE };
        let object_normal = self.local_normal_s(object_point);
        let wn = self.transform.inv_transpose_mul_tuple_s(object_normal);
        Tuple { x: wn.x, y: wn.y, z: wn.z, w: 0 }.normalize_s()
    }

    pub fn normal_at(&self, point: Tuple) -> (r: Tuple)
        requires
            self.wf_s(),
            point.is_point_s(),
        ensures
            r == self.normal_at_s(point),
            r.is_vector_s(),
    {
        let inv: Matrix = self.transform.inverse();
        let op: Tuple = inv.mul_tuple(point);
        let object_point: Tuple = Tuple::point(op.x, op.y, op.z);
        let object_normal: Tuple = self.local_normal_at(object_point);
        let invt: Matrix = inv.transpose();
        let wn: Tuple = invt.mul_tuple(object_normal);
        let world_normal: Tuple = Tuple::vector(wn.x, wn.y, wn.z);
        let r: Tuple = world_normal.normalize();
        proof {
            assert(r.is_vector_s());
        }
        r
    }
}

} // verus!
