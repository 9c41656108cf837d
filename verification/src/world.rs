//! The scene: an ordered list of objects and its single point light, with
//! the shadow test.

use vstd::prelude::*;
use crate::color::Color;
use crate::fx::FX_ONE;
use crate::intersection::hit_s;
use crate::intersection::sort_by_t_s;
use crate::light::PointLight;
use crate::material::Material;
use crate::matrix::Matrix;
use crate::ray::Ray;
use crate::shape::Object;
use crate::sphere::Sphere;
use crate::tuple::Tuple;

verus! {

pub struct World {
    pub objects: Vec<Object>,
    pub lights: Vec<PointLight>,
}

/// The merged candidates of the first `k` objects, built exactly as the
/// executable fold does: append each object's sorted list, then re-sort.
pub open spec fn world_xs_upto_s(w: World, ray: Ray, k: nat) -> Seq<crate::intersection::Intersection>
    decreases k,
{
    if k == 0 {
        Seq::empty()
    } else {
        sort_by_t_s(
            world_xs_upto_s(w, ray, (k - 1) as nat) + w.objects@[k - 1].intersections_s(
                ray,
                (k - 1) as usize,
            ),
        )
    }
}

/// All candidates of the scene for one ray, ascending by `t`.
pub open spec fn world_xs_s(w: World, ray: Ray) -> Seq<crate::intersection::Intersection> {
    world_xs_upto_s(w, ray, w.objects@.len())
}

/// The candidates of the first `k` objects, as a multiset: what the merged
/// list must hold, order aside.
pub open spec fn world_candidates_s(w: World, ray: Ray, k: nat) -> vstd::multiset::Multiset<
    crate::intersection::Intersection,
>
    decreases k,
{
    if k == 0 {
        vstd::multiset::Multiset::empty()
    } else {
        world_candidates_s(w, ray, (k - 1) as nat).add(
            w.objects@[k - 1].intersections_s(ray, (k - 1) as usize).to_multiset(),
        )
    }
}

/// Merging loses and invents nothing: the scene's candidate list holds
/// exactly the candidates of its objects, each as often as that object
/// yields it.
pub proof fn lemma_world_xs_content(w: World, ray: Ray, k: nat)
    ensures
        world_xs_upto_s(w, ray, k).to_multiset() == world_candidates_s(w, ray, k),
    decreases k,
{
    broadcast use vstd::seq_lib::lemma_multiset_commutative;
    broadcast use vstd::seq_lib::group_to_multiset_ensures;
    broadcast use vstd::multiset::group_multiset_axioms;
    broadcast use vstd::multiset::lemma_multiset_empty_len;

    if k == 0 {
        let e = world_xs_upto_s(w, ray, 0);
        assert(e.to_multiset().len() == 0);
        assert(e.to_multiset() =~= vstd::multiset::Multiset::empty());
    } else {
        lemma_world_xs_content(w, ray, (k - 1) as nat);
        let prev = world_xs_upto_s(w, ray, (k - 1) as nat);
        let own = w.objects@[k - 1].intersections_s(ray, (k - 1) as usize);
        crate::intersection::lemma_sort_by_t(prev + own);
        assert((prev + own).to_multiset() =~= prev.to_multiset().add(own.to_multiset()));
    }
}

impl World {
    /// A usable scene: exactly one light, every object usable.
    pub open spec fn wf_s(self) -> bool {
        &&& self.lights@.len() == 1
        &&& self.lights@[0].wf_s()
        &&& forall|i: int| 0 <= i < self.objects@.len() ==> (#[trigger] self.objects@[i]).wf_s()
    }

    pub fn new(objects: Vec<Object>, lights: Vec<PointLight>) -> (r: World)
        ensures
            r.objects == objects,
            r.lights == lights,
    {
        World { objects, lights }
    }

    /// The two-sphere reference scene: an outer colored sphere, an inner
    /// sphere at half scale, one white light up and to the left.
    pub fn default() -> (r: World)
        ensures
            r.wf_s(),
            r.objects@.len() == 2,
            r.lights@.len() == 1,
            r.lights@[0] == (PointLight {
                intensity: Color { red: FX_ONE, green: FX_ONE, blue: FX_ONE },
                position: Tuple { x: -655360i64, y: 655360i64, z: -655360i64, w: FX_ONE },
            }),
            r.objects@[0].material == (Material {
                color: Color { red: 52429, green: FX_ONE, blue: 39322 },
                diffuse: 45875,
                specular: 13107,
                ..Material::default_s()
            }),
            r.objects@[0].shape == crate::shape::ShapeType::Sphere(
                Sphere { center: Tuple { x: 0, y: 0, z: 0, w: FX_ONE }, radius: FX_ONE },
            ),
            forall|i: int, j: int|
                0 <= i < 4 && 0 <= j < 4 ==> r.objects@[0].transform.entry_s(i, j) == (if i == j {
                    FX_ONE
                } else {
                    0i64
                }),
            r.objects@[1].material == Material::default_s(),
            r.objects@[1].shape == crate::shape::ShapeType::Sphere(
                Sphere { center: Tuple { x: 0, y: 0, z: 0, w: FX_ONE }, radius: FX_ONE },
            ),
            r.objects@[1].transform.is_square_s(4),
            r.objects@[1].transform.values@[0]@ == seq![32768i64, 0i64, 0i64, 0i64],
            r.objects@[1].transform.values@[1]@ == seq![0i64, 32768i64, 0i64, 0i64],
            r.objects@[1].transform.values@[2]@ == seq![0i64, 0i64, 32768i64, 0i64],
            r.objects@[1].transform.values@[3]@ == seq![0i64, 0i64, 0i64, FX_ONE],
    {
        let light: PointLight = PointLight::new(
            Tuple::point(-655360, 655360, -655360),
            Color::new(FX_ONE, FX_ONE, FX_ONE),
        );
        let mut mat1: Material = Material::new();
        mat1.color = Color::new(52429, FX_ONE, 39322);  // (0.8, 1, 0.6)
        mat1.diffuse = 45875;  // 0.7
        mat1.specular = 13107;  // 0.2
        let s1: Object = Sphere::new(Some(mat1));

        let mut s2: Object = Sphere::new(None);
        let scal: Matrix = Matrix::scaling(32768, 32768, 32768);  // 0.5 each way
        proof {
            crate::matrix::lemma_diag_det(scal, 32768, 32768, 32768);
            assert(crate::fx::fx_mul_i(32768i64, 32768i64) == 16384i64) by {
                assert(crate::fx::div_trunc_s(1073741824int, 65536int) == 16384int);
                assert(crate::fx::clamp_s(16384int) == 16384int);
            }
            assert(crate::fx::fx_mul_i(32768i64, 16384i64) == 8192i64) by {
                assert(crate::fx::div_trunc_s(536870912int, 65536int) == 8192int);
                assert(crate::fx::clamp_s(8192int) == 8192int);
            }
            assert(scal.det_s() == 8192i64);
        }
        s2.transform = scal;

        let mut objects: Vec<Object> = Vec::new();
        objects.push(s1);
        objects.push(s2);
        let mut lights: Vec<PointLight> = Vec::new();
        lights.push(light);
        World { objects, lights }
    }

    /// A point is shadowed when something stands between it and the light:
    /// the nearest hit toward the light is closer than the light itself.
    pub open spec fn is_shadowed_s(self, point: Tuple) -> bool {
        let v = self.lights@[0].position.sub_s(point);
        let distance = v.magnitude_s();
        let direction = v.normalize_s();
        let shadow_ray = Ray { origin: point, direction };
        match hit_s(world_xs_s(self, shadow_ray)) {
            Some(h) => h.t < distance,
            None => false,
        }
    }

    pub fn is_shadowed(&self, point: Tuple) -> (r: bool)
        requires
            self.wf_s(),
            point.is_point_s(),
        ensures
            r == self.is_shadowed_s(point),
    {
        let v: Tuple = self.lights[0].position.sub(point);
        let distance: i64 = v.magnitude();
        let direction: Tuple = v.normalize();
        proof {
            assert(direction.is_vector_s());
        }
        let r: Ray = Ray::new(point, direction);
        let i = r.intersect_world(self);
        match i.hit() {
            Some(h) => h.t < distance,
            None => false,
        }
    }
}

} // verus!
