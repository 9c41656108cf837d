//! RGB colors on the fixed-point scalar.

use vstd::prelude::*;
use crate::fx::fx_add;
use crate::fx::fx_add_i;
use crate::fx::fx_sub;
use crate::fx::fx_sub_i;
use crate::fx::fx_mul;
use crate::fx::fx_mul_i;
use crate::fx::abs_s;
use crate::fx::FX_ONE;

verus! {

#[derive(Clone, Copy, Debug, PartialEq, Eq, Structural)]
pub struct Color {
    pub red: i64,
    pub green: i64,
    pub blue: i64,
}

impl Color {
    pub open spec fn add_s(self, rhs: Color) -> Color {
        Color {
            red: fx_add_i(self.red, rhs.red),
            green: fx_add_i(self.green, rhs.green),
            blue: fx_add_i(self.blue, rhs.blue),
        }
    }

    pub open spec fn sub_s(self, rhs: Color) -> Color {
        Color {
            red: fx_sub_i(self.red, rhs.red),
            green: fx_sub_i(self.green, rhs.green),
            blue: fx_sub_i(self.blue, rhs.blue),
        }
    }

    /// Hadamard (componentwise) product.
    pub open spec fn mul_s(self, rhs: Color) -> Color {
        Color {
            red: fx_mul_i(self.red, rhs.red),
            green: fx_mul_i(self.green, rhs.green),
            blue: fx_mul_i(self.blue, rhs.blue),
        }
    }

    pub open spec fn scale_s(self, rhs: i64) -> Color {
        Color {
            red: fx_mul_i(self.red, rhs),
            green: fx_mul_i(self.green, rhs),
            blue: fx_mul_i(self.blue, rhs),
        }
    }

    pub open spec fn black_s() -> Color {
        Color { red: 0, green: 0, blue: 0 }
    }

    pub open spec fn clamp_one_s(c: i64) -> i64 {
        if c < 0 {
            0
        } else if c > 255 * FX_ONE {
            (255 * FX_ONE) as i64
        } else {
            c
        }
    }

    pub fn new(red: i64, green: i64, blue: i64) -> (r: Color)
        ensures
            r == (Color { red, green, blue }),
    {
        Color { red, green, blue }
    }

    pub fn black() -> (r: Color)
        ensures
            r == Color::black_s(),
    {
        Color { red: 0, green: 0, blue: 0 }
    }

    /// Clamp every channel into `[0, 255]` (in scalar units), as the image
    /// writer expects.
    pub fn clamp(&mut self)
        ensures
            final(self).red == Color::clamp_one_s(old(self).red),
            final(self).green == Color::clamp_one_s(old(self).green),
            final(self).blue == Color::clamp_one_s(old(self).blue),
    {
        self.red = Color::clamp_channel(self.red);
        self.green = Color::clamp_channel(self.green);
        self.blue = Color::clamp_channel(self.blue);
    }

    fn clamp_channel(c: i64) -> (r: i64)
        ensures
            r == Color::clamp_one_s(c),
    {
        if c < 0 {
            0
        } else if c > 255 * FX_ONE {
            255 * FX_ONE
        } else {
            c
        }
    }

    pub fn add(self, rhs: Color) -> (r: Color)
        ensures
            r == self.add_s(rhs),
    {
        Color {
            red: fx_add(self.red, rhs.red),
            green: fx_add(self.green, rhs.green),
            blue: fx_add(self.blue, rhs.blue),
        }
    }

    pub fn sub(self, rhs: Color) -> (r: Color)
        ensures
            r == self.sub_s(rhs),
    {
        Color {
            red: fx_sub(self.red, rhs.red),
            green: fx_sub(self.green, rhs.green),
            blue: fx_sub(self.blue, rhs.blue),
        }
    }

    /// Hadamard (componentwise) product.
    pub fn mul(self, rhs: Color) -> (r: Color)
        ensures
            r == self.mul_s(rhs),
    {
        Color {
            red: fx_mul(self.red, rhs.red),
            green: fx_mul(self.green, rhs.green),
            blue: fx_mul(self.blue, rhs.blue),
        }
    }

    /// Scale every channel by a scalar.
    pub fn scale(self, rhs: i64) -> (r: Color)
        ensures
            r == self.scale_s(rhs),
    {
        Color {
            red: fx_mul(self.red, rhs),
            green: fx_mul(self.green, rhs),
            blue: fx_mul(self.blue, rhs),
        }
    }

    /// Channelwise comparison within a tolerance, for callers comparing
    /// quantized results.
    pub fn approx_equals(&self, other: &Color, tol: i64) -> (r: bool)
        requires
            tol >= 0,
        ensures
            r == (abs_s(self.red - other.red) <= tol && abs_s(self.green - other.green) <= tol
                && abs_s(self.blue - other.blue) <= tol),
    {
        let dr: i128 = self.red as i128 - other.red as i128;
        let dg: i128 = self.green as i128 - other.green as i128;
        let db: i128 = self.blue as i128 - other.blue as i128;
        let t: i128 = tol as i128;
        -t <= dr && dr <= t && -t <= dg && dg <= t && -t <= db && db <= t
    }
}

} // verus!
