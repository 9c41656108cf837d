//! The camera: maps pixel coordinates to world-space rays and drives the
//! per-pixel evaluation of a scene, optionally in parallel or with jittered
//! supersampling.

use vstd::prelude::*;
use rand::Rng;
use rayon::iter::IntoParallelIterator;
use rayon::iter::ParallelIterator;
use crate::color::Color;
use crate::fx::fx_add;
use crate::fx::fx_add_i;
use crate::fx::fx_div;
use crate::fx::fx_div_i;
use crate::fx::fx_from_units;
use crate::fx::fx_from_units_i;
use crate::fx::fx_mul;
use crate::fx::fx_mul_i;
use crate::fx::fx_neg;
use crate::fx::fx_neg_s;
use crate::fx::fx_sub;
use crate::fx::fx_sub_i;
use crate::fx::FX_ONE;
use crate::fx::FX_TWO;
use crate::intersection::color_hit_s;
use crate::matrix::lemma_identity_det;
use crate::matrix::Matrix;
use crate::ray::Ray;
use crate::shape::MAX_REFLECTIONS;
use crate::tuple::Tuple;
use crate::world::World;

verus! {

/// A view of `hsize` by `vsize` pixels. `half_view` is the tangent of half
/// the field of view, given as a scalar by the caller; trigonometry itself
/// is outside this crate.
pub struct Camera {
    pub hsize: usize,
    pub vsize: usize,
    pub half_view: i64,
    pub half_width: i64,
    pub half_height: i64,
    pub pixel_size: i64,
    pub transform: Matrix,
}

pub open spec fn aspect_s(hsize: usize, vsize: usize) -> i64 {
    fx_div_i(fx_from_units_i(hsize as i64), fx_from_units_i(vsize as i64))
}

pub open spec fn half_width_s(hsize: usize, vsize: usize, half_view: i64) -> i64 {
    if aspect_s(hsize, vsize) >= FX_ONE {
        half_view
    } else {
        fx_mul_i(half_view, aspect_s(hsize, vsize))
    }
}

pub open spec fn half_height_s(hsize: usize, vsize: usize, half_view: i64) -> i64 {
    if aspect_s(hsize, vsize) >= FX_ONE {
        fx_div_i(half_view, aspect_s(hsize, vsize))
    } else {
        half_view
    }
}

pub open spec fn pixel_size_s(hsize: usize, vsize: usize, half_view: i64) -> i64 {
    fx_div_i(fx_mul_i(half_width_s(hsize, vsize, half_view), FX_TWO), fx_from_units_i(hsize as i64))
}

impl Camera {
    /// A camera whose fields are consistent with its pixel counts and half
    /// view, with an invertible transform, and with sizes small enough for
    /// the pixel index arithmetic.
    pub open spec fn wf_s(self) -> bool {
        &&& 1 <= self.hsize <= 10000
        &&& 1 <= self.vsize <= 10000
        &&& self.half_width == half_width_s(self.hsize, self.vsize, self.half_view)
        &&& self.half_height == half_height_s(self.hsize, self.vsize, self.half_view)
        &&& self.pixel_size == pixel_size_s(self.hsize, self.vsize, self.half_view)
        &&& self.transform.is_square_s(4)
        &&& self.transform.det_s() != 0
    }

    /// Precompute the view-plane extents and pixel size from the aspect
    /// ratio. The camera initially looks down -z from the origin.
    pub fn new(hsize: usize, vsize: usize, half_view: i64) -> (r: Camera)
        requires
            1 <= hsize <= 10000,
            1 <= vsize <= 10000,
        ensures
            r.wf_s(),
            r.hsize == hsize,
            r.vsize == vsize,
            r.half_view == half_view,
            forall|i: int, j: int|
                0 <= i < 4 && 0 <= j < 4 ==> r.transform.entry_s(i, j) == (if i == j {
                    FX_ONE
                } else {
                    0i64
                }),
    {
        let h_fx: i64 = fx_from_units(hsize as i64);
        let v_fx: i64 = fx_from_units(vsize as i64);
        let aspect: i64 = fx_div(h_fx, v_fx);
        let half_width: i64;
        let half_height: i64;
        if aspect >= FX_ONE {
            half_width = half_view;
            half_height = fx_div(half_view, aspect);
        } else {
            half_width = fx_mul(half_view, aspect);
            half_height = half_view;
        }
        let pixel_size: i64 = fx_div(fx_mul(half_width, FX_TWO), h_fx);
        let transform: Matrix = Matrix::identity(4);
        proof {
            lemma_identity_det(transform);
        }
        Camera { hsize, vsize, half_view, half_width, half_height, pixel_size, transform }
    }

    /// The ray through the view-plane point at offsets (ox, oy) from the
    /// upper-left corner, in world space. The inverse camera transform is
    /// affine, so the transformed origin and pixel have their homogeneous
    /// coordinate re-pinned exactly.
    pub open spec fn offset_ray_s(self, ox: i64, oy: i64) -> Ray {
        let world_x = fx_sub_i(self.half_width, ox);
        let world_y = fx_sub_i(self.half_height, oy);
        let p0 = self.transform.inv_mul_tuple_s(
            Tuple { x: world_x, y: world_y, z: -65536i64, w: FX_ONE },
        );
        let o0 = self.transform.inv_mul_tuple_s(Tuple { x: 0, y: 0, z: 0, w: FX_ONE });
        let pixel = Tuple { x: p0.x, y: p0.y, z: p0.z, w: FX_ONE };
        let origin = Tuple { x: o0.x, y: o0.y, z: o0.z, w: FX_ONE };
        let direction = pixel.sub_s(origin).normalize_s();
        Ray { origin, direction }
    }

    /// The ray through the center of pixel (x, y).
    pub open spec fn project_ray_s(self, x: usize, y: usize) -> Ray {
        self.offset_ray_s(
            fx_mul_i(fx_add_i(fx_from_units_i(x as i64), 32768i64), self.pixel_size),
            fx_mul_i(fx_add_i(fx_from_units_i(y as i64), 32768i64), self.pixel_size),
        )
    }

    /// Whether `ray` is a jittered sub-ray of pixel (x, y): some unit
    /// fractions place it within the pixel footprint.
    pub open spec fn jittered_from_s(self, x: usize, y: usize, ray: Ray) -> bool {
        exists|jx: i64, jy: i64|
            0 <= jx < FX_ONE && 0 <= jy < FX_ONE && ray == self.subsample_ray_s(x, y, jx, jy)
    }

    /// The ray through pixel (x, y) jittered by the unit fractions (jx, jy).
    pub open spec fn subsample_ray_s(self, x: usize, y: usize, jx: i64, jy: i64) -> Ray {
        self.offset_ray_s(
            fx_mul_i(fx_add_i(fx_from_units_i(x as i64), jx), self.pixel_size),
            fx_mul_i(fx_add_i(fx_from_units_i(y as i64), jy), self.pixel_size),
        )
    }

    fn offset_ray(&self, ox: i64, oy: i64) -> (r: Ray)
        requires
            self.wf_s(),
        ensures
            r == self.offset_ray_s(ox, oy),
            r.wf_s(),
    {
        let world_x: i64 = fx_sub(self.half_width, ox);
        let world_y: i64 = fx_sub(self.half_height, oy);
        let inv: Matrix = self.transform.inverse();
        let p0: Tuple = inv.mul_tuple(Tuple::point(world_x, world_y, fx_neg(FX_ONE)));
        let o0: Tuple = inv.mul_tuple(Tuple::point(0, 0, 0));
        let pixel: Tuple = Tuple::point(p0.x, p0.y, p0.z);
        let origin: Tuple = Tuple::point(o0.x, o0.y, o0.z);
        let direction: Tuple = pixel.sub(origin).normalize();
        proof {
            assert(fx_neg_s(FX_ONE as int) == -65536);
            assert(direction.is_vector_s());
        }
        Ray { origin, direction }
    }

    pub fn project_ray(&self, x: usize, y: usize) -> (r: Ray)
        requires
            self.wf_s(),
            x < self.hsize,
            y < self.vsize,
        ensures
            r == self.project_ray_s(x, y),
            r.wf_s(),
    {
        let ox: i64 = fx_mul(fx_add(fx_from_units(x as i64), 32768), self.pixel_size);
        let oy: i64 = fx_mul(fx_add(fx_from_units(y as i64), 32768), self.pixel_size);
        self.offset_ray(ox, oy)
    }

    /// Ten rays through pixel (x, y), each jittered by a random offset
    /// within the pixel footprint. The jitter is drawn from the thread's
    /// generator, so only its range is promised.
    pub fn project_subsample_rays(&self, x: usize, y: usize) -> (r: Vec<Ray>)
        requires
            self.wf_s(),
            x < self.hsize,
            y < self.vsize,
        ensures
            r@.len() == 10,
            forall|i: int| 0 <= i < r@.len() ==> self.jittered_from_s(x, y, #[trigger] r@[i]),
            forall|i: int| 0 <= i < r@.len() ==> (#[trigger] r@[i]).wf_s(),
    {
        let mut rays: Vec<Ray> = Vec::new();
        let mut k: usize = 0;
        while k < 10
            invariant
                k <= 10,
                self.wf_s(),
                x < self.hsize,
                y < self.vsize,
                rays@.len() == k,
                forall|i: int|
                    0 <= i < rays@.len() ==> self.jittered_from_s(x, y, #[trigger] rays@[i]),
                forall|i: int| 0 <= i < rays@.len() ==> (#[trigger] rays@[i]).wf_s(),
            decreases 10 - k,
        {
            let jx: i64 = random_unit_fraction();
            let jy: i64 = random_unit_fraction();
            let ox: i64 = fx_mul(fx_add(fx_from_units(x as i64), jx), self.pixel_size);
            let oy: i64 = fx_mul(fx_add(fx_from_units(y as i64), jy), self.pixel_size);
            let ray: Ray = self.offset_ray(ox, oy);
            proof {
                assert(ray == self.subsample_ray_s(x, y, jx, jy));
                assert(self.jittered_from_s(x, y, ray));
            }
            rays.push(ray);
            k = k + 1;
        }
        rays
    }

    /// The color of the pixel at the given row-major index.
    pub open spec fn pixel_color_s(self, w: World, index: usize) -> Color {
        let row = ((index as int) / (self.hsize as int)) as usize;
        let col = ((index as int) % (self.hsize as int)) as usize;
        color_hit_s(w, self.project_ray_s(col, row), MAX_REFLECTIONS)
    }

    pub fn pixel_color(&self, world: &World, index: usize) -> (r: Color)
        requires
            self.wf_s(),
            world.wf_s(),
            index < self.hsize * self.vsize,
        ensures
            r == self.pixel_color_s(*world, index),
    {
        let row: usize = index / self.hsize;
        let col: usize = index % self.hsize;
        proof {
            assert(row < self.vsize) by (nonlinear_arith)
                requires
                    index < self.hsize * self.vsize && self.hsize >= 1 && row == (index as int) / (
                    self.hsize as int);
        }
        let ray: Ray = self.project_ray(col, row);
        ray.color_hit(world, MAX_REFLECTIONS)
    }

    /// Render the scene: one color per pixel, row-major, evaluated in
    /// parallel across the pixel indices.
    pub fn render(&self, world: &World) -> (r: Vec<Color>)
        requires
            self.wf_s(),
            world.wf_s(),
        ensures
            r@.len() == self.hsize * self.vsize,
            forall|i: int|
                0 <= i < r@.len() ==> (#[trigger] r@[i]) == self.pixel_color_s(*world, i as usize),
    {
        proof {
            assert(self.hsize * self.vsize <= 100000000) by (nonlinear_arith)
                requires
                    1 <= self.hsize <= 10000 && 1 <= self.vsize <= 10000;
        }
        let count: usize = self.hsize * self.vsize;
        render_pixels(self, world, count)
    }

    /// Render the scene with ten jittered sub-rays per pixel, averaged. The
    /// jitter is random, so only the image's dimensions are promised.
    pub fn render_supersample(&self, world: &World) -> (r: Vec<Color>)
        requires
            self.wf_s(),
            world.wf_s(),
        ensures
            r@.len() == self.hsize * self.vsize,
    {
        proof {
            assert(self.hsize * self.vsize <= 100000000) by (nonlinear_arith)
                requires
                    1 <= self.hsize <= 10000 && 1 <= self.vsize <= 10000;
        }
        let count: usize = self.hsize * self.vsize;
        let mut pixels: Vec<Color> = Vec::new();
        let mut index: usize = 0;
        while index < count
            invariant
                self.wf_s(),
                world.wf_s(),
                index <= count,
                count == self.hsize * self.vsize,
                pixels@.len() == index,
            decreases count - index,
        {
            let row: usize = index / self.hsize;
            let col: usize = index % self.hsize;
            proof {
                assert(row < self.vsize) by (nonlinear_arith)
                    requires
                        index < self.hsize * self.vsize && self.hsize >= 1 && row == (
                        index as int) / (self.hsize as int);
            }
            let rays: Vec<Ray> = self.project_subsample_rays(col, row);
            let mut sum: Color = Color::black();
            let mut k: usize = 0;
            while k < rays.len()
                invariant
                    world.wf_s(),
                    forall|i: int| 0 <= i < rays@.len() ==> (#[trigger] rays@[i]).wf_s(),
                decreases rays@.len() - k,
            {
                sum = sum.add(rays[k].color_hit(world, MAX_REFLECTIONS));
                k = k + 1;
            }
            pixels.push(sum.scale(fx_div(FX_ONE, fx_from_units(10))));
            index = index + 1;
        }
        pixels
    }
}

/// Relies on rand's `thread_rng` and `Rng::gen_range`: the result lies in
/// the requested half-open range. Nothing more is promised of a random
/// draw.
#[verifier::external_body]
fn random_unit_fraction() -> (r: i64)
    ensures
        0 <= r < FX_ONE,
{
    rand::thread_rng().gen_range(0..65536)
}

/// Relies on rayon: `into_par_iter` over a range with `map` and `collect`
/// into a `Vec` preserves index order, so element `i` is the verified
/// per-pixel function applied to `i`.
#[verifier::external_body]
fn render_pixels(camera: &Camera, world: &World, count: usize) -> (r: Vec<Color>)
    requires
        camera.wf_s(),
        world.wf_s(),
        count == camera.hsize * camera.vsize,
    ensures
        r@.len() == count,
        forall|i: int|
            0 <= i < count ==> (#[trigger] r@[i]) == camera.pixel_color_s(*world, i as usize),
{
    (0..count).into_par_iter().map(|index| camera.pixel_color(world, index)).collect()
}

} // verus!
