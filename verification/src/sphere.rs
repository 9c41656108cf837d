//! The unit sphere, centered at the object-space origin.

use vstd::prelude::*;
use crate::fx::fx_add;
use crate::fx::fx_add_i;
use crate::fx::fx_div;
use crate::fx::fx_div_i;
use crate::fx::fx_mul;
use crate::fx::fx_mul_i;
use crate::fx::fx_neg;
use crate::fx::fx_neg_i;
use crate::fx::fx_sqrt;
use crate::fx::fx_sqrt_i;
use crate::fx::fx_sub;
use crate::fx::fx_sub_i;
use crate::fx::abs_s;
use crate::fx::div_trunc_s;
use crate::fx::FX_FOUR;
use crate::fx::FX_MAX;
use crate::fx::FX_ONE;
use crate::fx::FX_TWO;
use crate::intersection::IntersectionList;
use crate::intersection::sorted_by_t_s;
use crate::material::Material;
use crate::matrix::Matrix;
use crate::matrix::lemma_identity_det;
use crate::ray::Ray;
use crate::shape::Object;
use crate::shape::ShapeType;
use crate::shape::wrap_ts;
use crate::shape::wrap_ts_s;
use crate::tuple::Tuple;

verus! {

#[derive(Clone, Copy, Debug)]
pub struct Sphere {
    pub center: Tuple,
    pub radius: i64,
}

impl Sphere {
    /// Coefficients of the quadratic `|O + tD|^2 = 1` for the local ray.
    pub open spec fn quad_a_s(self, ray: Ray) -> i64 {
        ray.direction.dot_s(ray.direction)
    }

    pub open spec fn quad_b_s(self, ray: Ray) -> i64 {
        fx_mul_i(FX_TWO, ray.direction.dot_s(ray.origin.sub_s(self.center)))
    }

    pub open spec fn quad_c_s(self, ray: Ray) -> i64 {
        let sphere_to_ray = ray.origin.sub_s(self.center);
        fx_sub_i(sphere_to_ray.dot_s(sphere_to_ray), FX_ONE)
    }

    pub open spec fn discriminant_s(self, ray: Ray) -> i64 {
        fx_sub_i(
            fx_mul_i(self.quad_b_s(ray), self.quad_b_s(ray)),
            fx_mul_i(fx_mul_i(FX_FOUR, self.quad_a_s(ray)), self.quad_c_s(ray)),
        )
    }

    /// Object-space roots: none when the discriminant is negative, else the
    /// two quadratic roots `(-b -+ sqrt(disc)) / (2a)`, nearest first.
    pub open spec fn local_ts_s(self, ray: Ray) -> Seq<i64> {
        let disc = self.discriminant_s(ray);
        if disc < 0 {
            Seq::empty()
        } else {
            let s = fx_sqrt_i(disc);
            let b = self.quad_b_s(ray);
            let two_a = fx_mul_i(FX_TWO, self.quad_a_s(ray));
            seq![
                fx_div_i(fx_sub_i(fx_neg_i(b), s), two_a),
                fx_div_i(fx_add_i(fx_neg_i(b), s), two_a),
            ]
        }
    }

    /// The outward normal at a local surface point is that point read as a
    /// vector.
    pub open spec fn local_normal_s(self, point: Tuple) -> Tuple {
        Tuple { x: point.x, y: point.y, z: point.z, w: 0 }
    }

    /// A unit sphere at the origin wrapped in an object with the identity
    /// transform and the given (or default) material.
    pub fn new(material: Option<Material>) -> (r: Object)
        requires
            match material {
                Some(m) => m.wf_s(),
                None => true,
            },
        ensures
            r.wf_s(),
            r.shape == ShapeType::Sphere(
                Sphere { center: Tuple { x: 0, y: 0, z: 0, w: FX_ONE }, radius: FX_ONE },
            ),
            r.material == (match material {
                Some(m) => m,
                None => Material::default_s(),
            }),
            r.transform.is_square_s(4),
            forall|i: int, j: int|
                0 <= i < 4 && 0 <= j < 4 ==> r.transform.entry_s(i, j) == (if i == j {
                    FX_ONE
                } else {
                    0i64
                }),
    {
        let material: Material = match material {
            Some(x) => x,
            None => Material::new(),
        };
        let transform: Matrix = Matrix::identity(4);
        proof {
            lemma_identity_det(transform);
        }
        Object {
            transform,
            shape: ShapeType::Sphere(
                Sphere { center: Tuple { x: 0, y: 0, z: 0, w: FX_ONE }, radius: FX_ONE },
            ),
            material,
        }
    }

    /// A glass sphere: fully transparent with refractive index 1.5.
    pub fn glass_new() -> (r: Object)
        ensures
            r.wf_s(),
            r.shape == ShapeType::Sphere(
                Sphere { center: Tuple { x: 0, y: 0, z: 0, w: FX_ONE }, radius: FX_ONE },
            ),
            r.material == (Material {
                transparency: FX_ONE,
                refractive_index: 98304i64,
                ..Material::default_s()
            }),
            r.transform.is_square_s(4),
            forall|i: int, j: int|
                0 <= i < 4 && 0 <= j < 4 ==> r.transform.entry_s(i, j) == (if i == j {
                    FX_ONE
                } else {
                    0i64
                }),
    {
        let mut material: Material = Material::new();
        material.transparency = FX_ONE;
        material.refractive_index = 98304;  // 1.5
        Sphere::new(Some(material))
    }

    /// Same construction as `new`, under the name the scene builders use.
    pub fn object_new(material_opt: Option<Material>) -> (r: Object)
        requires
            match material_opt {
                Some(m) => m.wf_s(),
                None => true,
            },
        ensures
            r.wf_s(),
            r.shape == ShapeType::Sphere(
                Sphere { center: Tuple { x: 0, y: 0, z: 0, w: FX_ONE }, radius: FX_ONE },
            ),
            r.material == (match material_opt {
                Some(m) => m,
                None => Material::default_s(),
            }),
            r.transform.is_square_s(4),
            forall|i: int, j: int|
                0 <= i < 4 && 0 <= j < 4 ==> r.transform.entry_s(i, j) == (if i == j {
                    FX_ONE
                } else {
                    0i64
                }),
    {
        Sphere::new(material_opt)
    }

    /// The raw roots of the quadratic along the local ray.
    pub fn local_ts(&self, ray_obj_space: &Ray) -> (r: Vec<i64>)
        requires
            self.center.is_point_s(),
            ray_obj_space.wf_s(),
        ensures
            r@ == self.local_ts_s(*ray_obj_space),
    {
        let sphere_to_ray: Tuple = ray_obj_space.origin.sub(self.center);
        let a: i64 = ray_obj_space.direction.dot(&ray_obj_space.direction);
        let b: i64 = fx_mul(FX_TWO, ray_obj_space.direction.dot(&sphere_to_ray));
        let c: i64 = fx_sub(sphere_to_ray.dot(&sphere_to_ray), FX_ONE);
        let discriminant: i64 = fx_sub(fx_mul(b, b), fx_mul(fx_mul(FX_FOUR, a), c));

        let mut ts: Vec<i64> = Vec::new();
        if discriminant >= 0 {
            let s: i64 = fx_sqrt(discriminant);
            let two_a: i64 = fx_mul(FX_TWO, a);
            let t1: i64 = fx_div(fx_sub(fx_neg(b), s), two_a);
            let t2: i64 = fx_div(fx_add(fx_neg(b), s), two_a);
            ts.push(t1);
            ts.push(t2);
            proof {
                assert(ts@ =~= self.local_ts_s(*ray_obj_space));
            }
        } else {
            proof {
                assert(ts@ =~= self.local_ts_s(*ray_obj_space));
            }
        }
        ts
    }

    /// The candidate intersections of the local ray, tagged with the owning
    /// object's index and sorted ascending by `t`.
    pub fn local_object_intersect(&self, ray_obj_space: &Ray, object_index: usize) -> (r:
        IntersectionList)
        requires
            self.center.is_point_s(),
            ray_obj_space.wf_s(),
        ensures
            r.intersections@ == wrap_ts_s(self.local_ts_s(*ray_obj_space), object_index),
            sorted_by_t_s(r.intersections@),
    {
        wrap_ts(self.local_ts(ray_obj_space), object_index)
    }

    pub fn local_object_normal(&self, object_space_point: Tuple) -> (r: Tuple)
        ensures
            r == self.local_normal_s(object_space_point),
            r.is_vector_s(),
    {
        Tuple::vector(object_space_point.x, object_space_point.y, object_space_point.z)
    }

    pub fn local_normal_at(&self, object_space_point: Tuple) -> (r: Tuple)
        ensures
            r == self.local_normal_s(object_space_point),
            r.is_vector_s(),
    {
        Tuple::vector(object_space_point.x, object_space_point.y, object_space_point.z)
    }
}

impl Sphere {
    /// The root computation stays away from the scalar saturation bounds,
    /// as it does for every ordinary scene; near the bounds the clamped
    /// arithmetic would flatten the roots instead.
    pub open spec fn roots_unclamped_s(self, ray: Ray) -> bool {
        let b = self.quad_b_s(ray);
        let sq = fx_sqrt_i(self.discriminant_s(ray));
        let d = fx_mul_i(FX_TWO, self.quad_a_s(ray));
        &&& d > 0
        &&& abs_s(b as int) + sq <= FX_MAX as int
        &&& (abs_s(b as int) + sq) * (FX_ONE as int) <= (FX_MAX as int) * (d as int)
    }
}

/// How a ray meets the unit sphere: a negative discriminant is a miss with
/// no roots; otherwise there are exactly two roots, and a zero discriminant
/// (a tangent ray) makes them equal.
pub proof fn lemma_sphere_roots(s: Sphere, ray: Ray)
    ensures
        (s.discriminant_s(ray) < 0) <==> (s.local_ts_s(ray).len() == 0),
        s.discriminant_s(ray) >= 0 ==> s.local_ts_s(ray).len() == 2,
        s.discriminant_s(ray) == 0 ==> s.local_ts_s(ray)[0] == s.local_ts_s(ray)[1],
{
    if s.discriminant_s(ray) == 0 {
        assert(fx_sqrt_i(0i64) == 0);
        let nb = fx_neg_i(s.quad_b_s(ray));
        assert(fx_sub_i(nb, 0) == fx_add_i(nb, 0));
    }
}

/// With two real roots and no saturation, the roots straddle the
/// closest-approach parameter `(-b) / (2a)` symmetrically: the nearer root
/// first, and their sum within three rounding units of twice that
/// parameter.
pub proof fn lemma_sphere_roots_symmetric(s: Sphere, ray: Ray)
    requires
        s.discriminant_s(ray) >= 0,
        s.roots_unclamped_s(ray),
    ensures
        s.local_ts_s(ray).len() == 2,
        s.local_ts_s(ray)[0] <= s.local_ts_s(ray)[1],
        abs_s(
            s.local_ts_s(ray)[0] + s.local_ts_s(ray)[1] - 2 * fx_div_i(
                fx_neg_i(s.quad_b_s(ray)),
                fx_mul_i(FX_TWO, s.quad_a_s(ray)),
            ),
        ) <= 3,
{
    let b = s.quad_b_s(ray);
    let disc = s.discriminant_s(ray);
    let sq = fx_sqrt_i(disc);
    let d = fx_mul_i(FX_TWO, s.quad_a_s(ray));
    let one = FX_ONE as int;
    crate::fx::lemma_fx_ranges(FX_TWO, ray.direction.dot_s(ray.origin.sub_s(s.center)));
    crate::fx::lemma_fx_sqrt_nonneg(disc);
    let nb: int = -(b as int);
    // The numerators and quotients stay in range, so clamping is identity.
    assert(fx_neg_i(b) == nb as i64);
    let num1: int = nb - sq;
    let num2: int = nb + sq;
    assert(abs_s(num1) <= abs_s(b as int) + sq);
    assert(abs_s(num2) <= abs_s(b as int) + sq);
    assert(fx_sub_i(fx_neg_i(b), sq) == num1 as i64);
    assert(fx_add_i(fx_neg_i(b), sq) == num2 as i64);

    let t1: i64 = s.local_ts_s(ray)[0];
    let t2: i64 = s.local_ts_s(ray)[1];
    let tm: i64 = fx_div_i(fx_neg_i(b), d);

    lemma_unclamped_quotient(num1, abs_s(b as int) + sq, d as int);
    lemma_unclamped_quotient(num2, abs_s(b as int) + sq, d as int);
    lemma_unclamped_quotient(nb, abs_s(b as int) + sq, d as int);

    assert(abs_s(nb) <= abs_s(b as int) + sq);
    assert(t1 as int == div_trunc_s(num1 * one, d as int));
    assert(t2 as int == div_trunc_s(num2 * one, d as int));
    assert(tm as int == div_trunc_s(nb * one, d as int));

    crate::fx::lemma_div_trunc_close(num1 * one, d as int);
    crate::fx::lemma_div_trunc_close(num2 * one, d as int);
    crate::fx::lemma_div_trunc_close(nb * one, d as int);
    crate::fx::lemma_div_trunc_monotone(num1 * one, num2 * one, d as int);

    let x: int = t1 + t2 - 2 * (tm as int);
    assert((num1 + num2) * one == 2 * (nb * one)) by (nonlinear_arith)
        requires
            num1 + num2 == 2 * nb;
    assert(abs_s((d as int) * x) <= 4 * ((d as int) - 1)) by (nonlinear_arith)
        requires
            abs_s((d as int) * (t1 as int) - num1 * one) <= (d as int) - 1 && abs_s(
                (d as int) * (t2 as int) - num2 * one,
            ) <= (d as int) - 1 && abs_s((d as int) * (tm as int) - nb * one) <= (d as int) - 1
                && (num1 + num2) * one == 2 * (nb * one) && x == t1 + t2 - 2 * (tm as int) && (
            d as int) > 0;
    assert(abs_s(x) <= 3) by (nonlinear_arith)
        requires
            abs_s((d as int) * x) <= 4 * ((d as int) - 1) && (d as int) > 0;
}

/// A quotient whose numerator obeys the unclamped bound stays within the
/// scalar range.
proof fn lemma_unclamped_quotient(num: int, cap: int, d: int)
    requires
        d > 0,
        abs_s(num) <= cap,
        cap >= 0,
        cap * (FX_ONE as int) <= (FX_MAX as int) * d,
    ensures
        abs_s(div_trunc_s(num * (FX_ONE as int), d)) <= FX_MAX as int,
{
    let one = FX_ONE as int;
    let m = abs_s(num);
    assert(abs_s(num * one) == m * one) by (nonlinear_arith)
        requires
            m == abs_s(num) && one > 0;
    assert(m * one <= cap * one) by (nonlinear_arith)
        requires
            m <= cap && one > 0;
    vstd::arithmetic::div_mod::lemma_div_is_ordered(m * one, (FX_MAX as int) * d, d);
    vstd::arithmetic::div_mod::lemma_div_multiples_vanish(FX_MAX as int, d);
    vstd::arithmetic::div_mod::lemma_div_pos_is_pos(m * one, d);
    assert(abs_s(div_trunc_s(num * one, d)) == (m * one) / d);
}

} // verus!
