//! Procedural surface patterns: stripes, gradients, rings, checkers, and a
//! pattern that reports the evaluation point, used by tests.

use vstd::prelude::*;
use crate::color::Color;
use crate::fx::abs_s;
use crate::fx::fx_add;
use crate::fx::fx_floor_units;
use crate::fx::fx_floor_units_i;
use crate::fx::fx_from_units;
use crate::fx::fx_from_units_i;
use crate::fx::fx_mul;
use crate::fx::fx_sqrt;
use crate::fx::fx_sqrt_i;
use crate::fx::fx_sub;
use crate::fx::fx_sub_i;
use crate::fx::fx_add_i;
use crate::fx::fx_mul_i;
use crate::fx::lemma_fx_square_nonneg;
use crate::matrix::Matrix;
use crate::shape::Object;
use crate::tuple::Tuple;

verus! {

#[derive(Clone, Debug)]
pub enum PatternType {
    StripePattern(StripePattern),
    GradientPattern(GradientPattern),
    RingPattern(RingPattern),
    CheckerPattern(CheckerPattern),
    RadialGradientPattern(RadialGradientPattern),
    TestPattern(TestPattern),
}

#[derive(Clone, Debug)]
pub struct Pattern {
    pub transform: Matrix,
    pub pattern_type: PatternType,
}

#[derive(Clone, Debug)]
pub struct StripePattern {
    pub colors: Vec<Color>,
}

#[derive(Clone, Copy, Debug)]
pub struct GradientPattern {
    pub a: Color,
    pub b: Color,
}

#[derive(Clone, Debug)]
pub struct RingPattern {
    pub colors: Vec<Color>,
}

#[derive(Clone, Copy, Debug)]
pub struct CheckerPattern {
    pub a: Color,
    pub b: Color,
}

#[derive(Clone, Copy, Debug)]
pub struct RadialGradientPattern {
    pub a: Color,
    pub b: Color,
}

#[derive(Clone, Copy, Debug)]
pub struct TestPattern;

/// Fractional part of a scalar: `x - floor(x)`, in `[0, 1)`.
pub open spec fn frac_s(x: i64) -> i64 {
    fx_sub_i(x, fx_from_units_i(fx_floor_units_i(x)))
}

fn frac(x: i64) -> (r: i64)
    ensures
        r == frac_s(x),
{
    fx_sub(x, fx_from_units(fx_floor_units(x)))
}

/// Index into a palette of `n` colors by the magnitude of the floor of `x`.
pub open spec fn palette_index_s(x: i64, n: nat) -> int {
    abs_s(fx_floor_units_i(x) as int) % (n as int)
}

fn palette_index(x: i64, n: usize) -> (r: usize)
    requires
        n > 0,
    ensures
        r == palette_index_s(x, n as nat),
{
    let fu: i64 = fx_floor_units(x);
    let m: u64 = if fu < 0 {
        (-(fu as i128)) as u64
    } else {
        fu as u64
    };
    let idx: u64 = m % (n as u64);
    idx as usize
}

/// Radial distance in the xz plane: sqrt(x^2 + z^2).
pub open spec fn xz_dist_s(x: i64, z: i64) -> i64 {
    fx_sqrt_i(fx_add_i(fx_mul_i(x, x), fx_mul_i(z, z)))
}

fn xz_dist(x: i64, z: i64) -> (r: i64)
    ensures
        r == xz_dist_s(x, z),
        r >= 0,
{
    proof {
        lemma_fx_square_nonneg(x);
        lemma_fx_square_nonneg(z);
    }
    fx_sqrt(fx_add(fx_mul(x, x), fx_mul(z, z)))
}

impl StripePattern {
    pub open spec fn color_at_s(self, point: Tuple) -> Color {
        self.colors@[palette_index_s(point.x, self.colors@.len())]
    }

    pub fn new(colors: Vec<Color>) -> (r: Pattern)
        ensures
            r.pattern_type == PatternType::StripePattern(StripePattern { colors }),
            r.transform.is_square_s(4),
            forall|i: int, j: int|
                0 <= i < 4 && 0 <= j < 4 ==> r.transform.entry_s(i, j) == (if i == j {
                    crate::fx::FX_ONE
                } else {
                    0i64
                }),
    {
        Pattern::new(PatternType::StripePattern(StripePattern { colors }))
    }

    /// Alternate colors along x, one unit per stripe.
    pub fn color_at(&self, point: Tuple) -> (r: Color)
        requires
            self.colors@.len() > 0,
        ensures
            r == self.color_at_s(point),
    {
        let idx: usize = palette_index(point.x, self.colors.len());
        self.colors[idx]
    }
}

impl GradientPattern {
    pub open spec fn color_at_s(self, point: Tuple) -> Color {
        self.a.add_s(self.b.sub_s(self.a).scale_s(frac_s(point.x)))
    }

    pub fn new(a: Color, b: Color) -> (r: Pattern)
        ensures
            r.pattern_type == PatternType::GradientPattern(GradientPattern { a, b }),
            r.transform.is_square_s(4),
            forall|i: int, j: int|
                0 <= i < 4 && 0 <= j < 4 ==> r.transform.entry_s(i, j) == (if i == j {
                    crate::fx::FX_ONE
                } else {
                    0i64
                }),
    {
        Pattern::new(PatternType::GradientPattern(GradientPattern { a, b }))
    }

    /// Blend from `a` to `b` across each unit interval of x.
    pub fn color_at(&self, point: Tuple) -> (r: Color)
        ensures
            r == self.color_at_s(point),
    {
        self.a.add(self.b.sub(self.a).scale(frac(point.x)))
    }
}

impl RingPattern {
    pub open spec fn color_at_s(self, point: Tuple) -> Color {
        self.colors@[palette_index_s(xz_dist_s(point.x, point.z), self.colors@.len())]
    }

    pub fn new(colors: Vec<Color>) -> (r: Pattern)
        ensures
            r.pattern_type == PatternType::RingPattern(RingPattern { colors }),
            r.transform.is_square_s(4),
            forall|i: int, j: int|
                0 <= i < 4 && 0 <= j < 4 ==> r.transform.entry_s(i, j) == (if i == j {
                    crate::fx::FX_ONE
                } else {
                    0i64
                }),
    {
        Pattern::new(PatternType::RingPattern(RingPattern { colors }))
    }

    /// Alternate colors in concentric rings about the y axis.
    pub fn color_at(&self, point: Tuple) -> (r: Color)
        requires
            self.colors@.len() > 0,
        ensures
            r == self.color_at_s(point),
    {
        let idx: usize = palette_index(xz_dist(point.x, point.z), self.colors.len());
        self.colors[idx]
    }
}

impl CheckerPattern {
    pub open spec fn color_at_s(self, point: Tuple) -> Color {
        if abs_s(
            fx_floor_units_i(point.x) + fx_floor_units_i(point.y) + fx_floor_units_i(point.z),
        ) % 2 == 0 {
            self.a
        } else {
            self.b
        }
    }

    pub fn new(a: Color, b: Color) -> (r: Pattern)
        ensures
            r.pattern_type == PatternType::CheckerPattern(CheckerPattern { a, b }),
            r.transform.is_square_s(4),
            forall|i: int, j: int|
                0 <= i < 4 && 0 <= j < 4 ==> r.transform.entry_s(i, j) == (if i == j {
                    crate::fx::FX_ONE
                } else {
                    0i64
                }),
    {
        Pattern::new(PatternType::CheckerPattern(CheckerPattern { a, b }))
    }

    /// Alternate colors on a three-dimensional unit checkerboard.
    pub fn color_at(&self, point: Tuple) -> (r: Color)
        ensures
            r == self.color_at_s(point),
    {
        let s: i128 = fx_floor_units(point.x) as i128 + fx_floor_units(point.y) as i128
            + fx_floor_units(point.z) as i128;
        let m: u128 = if s < 0 {
            (-s) as u128
        } else {
            s as u128
        };
        if m % 2 == 0 {
            self.a
        } else {
            self.b
        }
    }
}

impl RadialGradientPattern {
    pub open spec fn color_at_s(self, point: Tuple) -> Color {
        self.a.add_s(self.b.sub_s(self.a).scale_s(frac_s(xz_dist_s(point.x, point.z))))
    }

    pub fn new(a: Color, b: Color) -> (r: Pattern)
        ensures
            r.pattern_type == PatternType::RadialGradientPattern(RadialGradientPattern { a, b }),
            r.transform.is_square_s(4),
            forall|i: int, j: int|
                0 <= i < 4 && 0 <= j < 4 ==> r.transform.entry_s(i, j) == (if i == j {
                    crate::fx::FX_ONE
                } else {
                    0i64
                }),
    {
        Pattern::new(PatternType::RadialGradientPattern(RadialGradientPattern { a, b }))
    }

    /// Blend from `a` to `b` across each unit of radial distance.
    pub fn color_at(&self, point: Tuple) -> (r: Color)
        ensures
            r == self.color_at_s(point),
    {
        self.a.add(self.b.sub(self.a).scale(frac(xz_dist(point.x, point.z))))
    }
}

impl TestPattern {
    pub fn new() -> (r: Pattern)
        ensures
            r.pattern_type == PatternType::TestPattern(TestPattern),
            r.transform.is_square_s(4),
            forall|i: int, j: int|
                0 <= i < 4 && 0 <= j < 4 ==> r.transform.entry_s(i, j) == (if i == j {
                    crate::fx::FX_ONE
                } else {
                    0i64
                }),
    {
        Pattern::new(PatternType::TestPattern(TestPattern))
    }
}

impl Pattern {
    /// Palette-backed variants carry at least one color, and the pattern's
    /// own transform is invertible.
    pub open spec fn wf_s(self) -> bool {
        &&& self.transform.is_square_s(4)
        &&& self.transform.det_s() != 0
        &&& match self.pattern_type {
            PatternType::StripePattern(p) => p.colors@.len() > 0,
            PatternType::RingPattern(p) => p.colors@.len() > 0,
            _ => true,
        }
    }

    fn new(pattern_type: PatternType) -> (r: Pattern)
        ensures
            r.pattern_type == pattern_type,
            r.transform.is_square_s(4),
            forall|i: int, j: int|
                0 <= i < 4 && 0 <= j < 4 ==> r.transform.entry_s(i, j) == (if i == j {
                    crate::fx::FX_ONE
                } else {
                    0i64
                }),
    {
        Pattern { transform: Matrix::identity(4), pattern_type }
    }

    /// The pattern color at a point already in pattern space.
    pub open spec fn pattern_at_s(self, point: Tuple) -> Color {
        match self.pattern_type {
            PatternType::StripePattern(p) => p.color_at_s(point),
            PatternType::GradientPattern(p) => p.color_at_s(point),
            PatternType::RingPattern(p) => p.color_at_s(point),
            PatternType::CheckerPattern(p) => p.color_at_s(point),
            PatternType::RadialGradientPattern(p) => p.color_at_s(point),
            PatternType::TestPattern(_) => Color { red: point.x, green: point.y, blue: point.z },
        }
    }

    pub fn pattern_at(&self, point: Tuple) -> (r: Color)
        requires
            point.is_point_s(),
            match self.pattern_type {
                PatternType::StripePattern(p) => p.colors@.len() > 0,
                PatternType::RingPattern(p) => p.colors@.len() > 0,
                _ => true,
            },
        ensures
            r == self.pattern_at_s(point),
    {
        match &self.pattern_type {
            PatternType::StripePattern(stripe) => stripe.color_at(point),
            PatternType::GradientPattern(gradient) => gradient.color_at(point),
            PatternType::RingPattern(ring) => ring.color_at(point),
            PatternType::CheckerPattern(checker) => checker.color_at(point),
            PatternType::RadialGradientPattern(radial_gradient) => radial_gradient.color_at(point),
            PatternType::TestPattern(_) => Color::new(point.x, point.y, point.z),
        }
    }

    /// A world point carried into pattern space: through the inverse of the
    /// object's transform, then the inverse of the pattern's own.
    pub open spec fn pattern_at_object_s(self, object_transform: Matrix, point: Tuple) -> Color {
        let object_point = object_transform.inv_mul_tuple_s(point);
        let pattern_point = self.transform.inv_mul_tuple_s(object_point);
        self.pattern_at_s(pattern_point)
    }

    pub fn pattern_at_object(&self, object: &Object, point: Tuple) -> (r: Color)
        requires
            self.wf_s(),
            object.transform.is_square_s(4),
            object.transform.det_s() != 0,
        ensures
            r == self.pattern_at_object_s(object.transform, point),
    {
        let object_point: Tuple = object.transform.inverse().mul_tuple(point);
        let pattern_point: Tuple = self.transform.inverse().mul_tuple(object_point);
        match &self.pattern_type {
            PatternType::StripePattern(stripe) => stripe.color_at(pattern_point),
            PatternType::GradientPattern(gradient) => gradient.color_at(pattern_point),
            PatternType::RingPattern(ring) => ring.color_at(pattern_point),
            PatternType::CheckerPattern(checker) => checker.color_at(pattern_point),
            PatternType::RadialGradientPattern(radial_gradient) => radial_gradient.color_at(
                pattern_point,
            ),
            PatternType::TestPattern(_) => Color::new(
                pattern_point.x,
                pattern_point.y,
                pattern_point.z,
            ),
        }
    }

    pub fn set_transform(&mut self, m: Matrix)
        ensures
            final(self).transform == m,
            final(self).pattern_type == old(self).pattern_type,
    {
        self.transform = m;
    }
}

} // verus!
