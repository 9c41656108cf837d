//! Fixed-point scalar arithmetic.
//!
//! A scalar is an `i64` holding a real number scaled by `FX_ONE` (2^16), so
//! the value `x` stands for the real number `x / 65536`. Every operation is
//! total: intermediate work is done in 128 bits and the result is clamped
//! into `[FX_MIN, FX_MAX]`, so an overflowing product or a division by zero
//! saturates instead of wrapping or panicking. Division by zero yields the
//! saturation bound with the sign of the numerator, which is what the cube
//! slab test relies on in place of a signed infinity.

use vstd::prelude::*;

verus! {

/// The scale factor: the fixed-point representation of 1.0.
pub const FX_ONE: i64 = 65536;

/// Largest representable scalar.
pub const FX_MAX: i64 = 9223372036854775807;

/// Smallest representable scalar; the range is kept symmetric so that
/// negation never overflows.
pub const FX_MIN: i64 = -9223372036854775807;

/// Surface offset used for over/under points and parallel-ray tests,
/// about 1.07e-4 in real units.
pub const EPSILON: i64 = 7;

/// The representation of 2.0.
pub const FX_TWO: i64 = 2 * 65536;

/// The representation of 4.0.
pub const FX_FOUR: i64 = 4 * 65536;

pub open spec fn max_i(a: i64, b: i64) -> i64 {
    if a >= b {
        a
    } else {
        b
    }
}

pub open spec fn min_i(a: i64, b: i64) -> i64 {
    if a <= b {
        a
    } else {
        b
    }
}

pub open spec fn abs_s(a: int) -> int {
    if a < 0 {
        -a
    } else {
        a
    }
}

/// Clamp a mathematical integer into the representable scalar range.
pub open spec fn clamp_s(x: int) -> int {
    if x > FX_MAX as int {
        FX_MAX as int
    } else if x < FX_MIN as int {
        FX_MIN as int
    } else {
        x
    }
}

/// Division truncating toward zero, as the executable code computes it on
/// magnitudes. Defined for `b != 0`; on `b == 0` the callers never use it.
pub open spec fn div_trunc_s(a: int, b: int) -> int {
    if (a < 0) == (b < 0) {
        abs_s(a) / abs_s(b)
    } else {
        -(abs_s(a) / abs_s(b))
    }
}

pub open spec fn fx_add_s(a: int, b: int) -> int {
    clamp_s(a + b)
}

pub open spec fn fx_sub_s(a: int, b: int) -> int {
    clamp_s(a - b)
}

pub open spec fn fx_neg_s(a: int) -> int {
    clamp_s(-a)
}

pub open spec fn fx_mul_s(a: int, b: int) -> int {
    clamp_s(div_trunc_s(a * b, FX_ONE as int))
}

pub open spec fn fx_div_s(a: int, b: int) -> int {
    if b == 0 {
        if a > 0 {
            FX_MAX as int
        } else if a < 0 {
            FX_MIN as int
        } else {
            0
        }
    } else {
        clamp_s(div_trunc_s(a * (FX_ONE as int), b))
    }
}

/// Floor of the square root of a nonnegative integer, by the classical
/// base-4 recursion.
pub open spec fn isqrt_s(n: int) -> int
    decreases n,
{
    if n < 1 {
        0
    } else {
        let h = isqrt_s(n / 4);
        if (2 * h + 1) * (2 * h + 1) <= n {
            2 * h + 1
        } else {
            2 * h
        }
    }
}

/// Fixed-point square root: floor(sqrt(a)) in the scaled representation.
/// Defined as 0 for negative input; executable callers reject that case.
pub open spec fn fx_sqrt_s(a: int) -> int {
    if a < 0 {
        0
    } else {
        isqrt_s(a * (FX_ONE as int))
    }
}

/// Fixed-point integer power with a machine-integer exponent.
pub open spec fn fx_powi_s(b: int, e: nat) -> int
    decreases e,
{
    if e == 0 {
        FX_ONE as int
    } else {
        fx_mul_s(b, fx_powi_s(b, (e - 1) as nat))
    }
}

/// Floor of a scalar, in whole units (not scaled).
pub open spec fn fx_floor_units_s(a: int) -> int {
    if a >= 0 {
        a / (FX_ONE as int)
    } else {
        -((-a + FX_ONE - 1) / (FX_ONE as int))
    }
}

proof fn lemma_isqrt_s_bounds(n: int)
    requires
        n >= 0,
    ensures
        isqrt_s(n) >= 0,
        isqrt_s(n) * isqrt_s(n) <= n,
        n < (isqrt_s(n) + 1) * (isqrt_s(n) + 1),
    decreases n,
{
    if n < 1 {
    } else {
        let m = n / 4;
        lemma_isqrt_s_bounds(m);
        let h = isqrt_s(m);
        assert(4 * m <= n < 4 * (m + 1)) by (nonlinear_arith)
            requires n >= 1 && m == n / 4;
        if (2 * h + 1) * (2 * h + 1) <= n {
            assert(n < (2 * h + 2) * (2 * h + 2)) by (nonlinear_arith)
                requires n < 4 * (m + 1) && m < (h + 1) * (h + 1);
        } else {
            assert((2 * h) * (2 * h) <= n) by (nonlinear_arith)
                requires 4 * m <= n && h * h <= m;
        }
    }
}

proof fn lemma_isqrt_unique(n: int, r: int)
    requires
        n >= 0,
        r >= 0,
        r * r <= n,
        n < (r + 1) * (r + 1),
    ensures
        r == isqrt_s(n),
{
    lemma_isqrt_s_bounds(n);
    let q = isqrt_s(n);
    assert(r == q) by (nonlinear_arith)
        requires
            r >= 0 && q >= 0 && r * r <= n && n < (r + 1) * (r + 1) && q * q <= n && n < (q + 1) * (
            q + 1);
}

/// Magnitude of a scalar as an unsigned machine integer.
fn abs_u64(a: i64) -> (r: u64)
    ensures
        r as int == abs_s(a as int),
{
    if a < 0 {
        let wide: i128 = -(a as i128);
        wide as u64
    } else {
        a as u64
    }
}

/// Clamp a signed 128-bit intermediate into the scalar range.
fn clamp_i128(x: i128) -> (r: i64)
    ensures
        r as int == clamp_s(x as int),
{
    if x > FX_MAX as i128 {
        FX_MAX
    } else if x < FX_MIN as i128 {
        FX_MIN
    } else {
        x as i64
    }
}

/// Reattach a sign to an unsigned magnitude, clamping into the scalar range.
fn signed_clamped(mag: u128, neg: bool) -> (r: i64)
    ensures
        r as int == clamp_s(if neg { -(mag as int) } else { mag as int }),
{
    if neg {
        if mag > FX_MAX as u128 {
            FX_MIN
        } else {
            -(mag as i64)
        }
    } else {
        if mag > FX_MAX as u128 {
            FX_MAX
        } else {
            mag as i64
        }
    }
}

/// Saturating fixed-point addition.
pub fn fx_add(a: i64, b: i64) -> (r: i64)
    ensures
        r as int == fx_add_s(a as int, b as int),
        r == fx_add_i(a, b),
{
    clamp_i128(a as i128 + b as i128)
}

/// Saturating fixed-point subtraction.
pub fn fx_sub(a: i64, b: i64) -> (r: i64)
    ensures
        r as int == fx_sub_s(a as int, b as int),
        r == fx_sub_i(a, b),
{
    clamp_i128(a as i128 - b as i128)
}

/// Saturating negation.
pub fn fx_neg(a: i64) -> (r: i64)
    ensures
        r as int == fx_neg_s(a as int),
        r == fx_neg_i(a),
{
    clamp_i128(-(a as i128))
}

/// Fixed-point product: (a * b) / FX_ONE, truncated toward zero, clamped.
pub fn fx_mul(a: i64, b: i64) -> (r: i64)
    ensures
        r as int == fx_mul_s(a as int, b as int),
        r == fx_mul_i(a, b),
{
    let neg: bool = (a < 0) != (b < 0);
    let ma: u64 = abs_u64(a);
    let mb: u64 = abs_u64(b);
    proof {
        assert((ma as int) * (mb as int) <= 0x4000_0000_0000_0000_0000_0000_0000_0000int)
            by (nonlinear_arith)
            requires
                ma <= 0x8000_0000_0000_0000u64 && mb <= 0x8000_0000_0000_0000u64;
        assert((ma as int) * (mb as int) == abs_s((a as int) * (b as int))) by (nonlinear_arith)
            requires
                ma as int == abs_s(a as int) && mb as int == abs_s(b as int);
        assert(neg ==> (a as int) * (b as int) <= 0) by (nonlinear_arith)
            requires
                neg == ((a < 0) != (b < 0));
        assert(!neg ==> (a as int) * (b as int) >= 0) by (nonlinear_arith)
            requires
                neg == ((a < 0) != (b < 0));
    }
    let p: u128 = (ma as u128) * (mb as u128);
    let q: u128 = p / (FX_ONE as u128);
    signed_clamped(q, neg && q > 0)
}

/// Fixed-point quotient: (a * FX_ONE) / b, truncated toward zero, clamped;
/// saturates with the sign of `a` when `b` is zero.
pub fn fx_div(a: i64, b: i64) -> (r: i64)
    ensures
        r as int == fx_div_s(a as int, b as int),
        r == fx_div_i(a, b),
{
    if b == 0 {
        if a > 0 {
            FX_MAX
        } else if a < 0 {
            FX_MIN
        } else {
            0
        }
    } else {
        let neg: bool = (a < 0) != (b < 0);
        let ma: u64 = abs_u64(a);
        let mb: u64 = abs_u64(b);
        let p: u128 = (ma as u128) * (FX_ONE as u128);
        let q: u128 = p / (mb as u128);
        proof {
            let aa = (a as int) * (FX_ONE as int);
            assert((aa < 0) == (a < 0));
            assert((ma as int) * (FX_ONE as int) == abs_s(aa)) by (nonlinear_arith)
                requires
                    aa == (a as int) * (FX_ONE as int) && ma as int == abs_s(a as int);
            assert(q as int == abs_s(aa) / abs_s(b as int));
            assert(div_trunc_s(aa, b as int) == if ((aa < 0) != ((b as int) < 0)) {
                -(q as int)
            } else {
                q as int
            });
        }
        signed_clamped(q, neg && q > 0)
    }
}

/// Floor square root over u128, by bisection on `[a, b)` with the invariant
/// `a * a <= n < b * b`.
fn isqrt_u128(n: u128) -> (r: u128)
    requires
        n < 0x4000_0000_0000_0000_0000_0000_0000_0000u128,
    ensures
        r as int == isqrt_s(n as int),
{
    let mut a: u128 = 0;
    let mut b: u128 = 0x8000_0000_0000_0000u128;
    proof {
        assert(b as int * b as int == 0x4000_0000_0000_0000_0000_0000_0000_0000int)
            by (nonlinear_arith)
            requires
                b == 0x8000_0000_0000_0000u128;
    }
    while a + 1 < b
        invariant
            a * a <= n as int,
            (n as int) < b * b,
            b <= 0x8000_0000_0000_0000u128,
            a < b,
        decreases b as int - a as int,
    {
        let mid: u128 = a + (b - a) / 2;
        proof {
            assert((mid as int) * (mid as int) < 0x4000_0000_0000_0000_0000_0000_0000_0001int)
                by (nonlinear_arith)
                requires
                    mid <= 0x8000_0000_0000_0000u128;
        }
        if mid * mid <= n {
            a = mid;
        } else {
            b = mid;
        }
    }
    proof {
        lemma_isqrt_unique(n as int, a as int);
    }
    a
}

/// Fixed-point square root of a nonnegative scalar.
pub fn fx_sqrt(a: i64) -> (r: i64)
    requires
        a >= 0,
    ensures
        r as int == fx_sqrt_s(a as int),
        r == fx_sqrt_i(a),
        r >= 0,
{
    proof {
        assert((a as int) * (FX_ONE as int) < 0x4000_0000_0000_0000_0000_0000_0000_0000int)
            by (nonlinear_arith)
            requires
                0 <= a <= 0x7fff_ffff_ffff_ffffi64;
    }
    let n: u128 = (a as u128) * (FX_ONE as u128);
    let r: u128 = isqrt_u128(n);
    proof {
        lemma_isqrt_s_bounds(n as int);
        assert(r as int * r as int <= n as int);
        assert(n as int <= 0x8000_0000_0000_0000_0000int) by (nonlinear_arith)
            requires
                n == (a as int) * (FX_ONE as int) && 0 <= a <= 0x7fff_ffff_ffff_ffffi64;
        assert(r as int <= FX_MAX as int) by (nonlinear_arith)
            requires
                r >= 0 && r as int * r as int <= n as int && n as int
                    <= 0x8000_0000_0000_0000_0000int;
    }
    r as i64
}

/// Fixed-point power with a nonnegative integer exponent.
pub fn fx_powi(b: i64, e: u32) -> (r: i64)
    ensures
        r as int == fx_powi_s(b as int, e as nat),
        r == fx_powi_i(b, e),
{
    let mut acc: i64 = FX_ONE;
    let mut i: u32 = 0;
    while i < e
        invariant
            i <= e,
            acc as int == fx_powi_s(b as int, i as nat),
        decreases e - i,
    {
        acc = fx_mul(b, acc);
        i = i + 1;
    }
    acc
}

/// Floor of a scalar in whole units: the greatest integer at or below `a`.
pub fn fx_floor_units(a: i64) -> (r: i64)
    ensures
        r as int == fx_floor_units_s(a as int),
        r == fx_floor_units_i(a),
{
    if a >= 0 {
        (a as u64 / FX_ONE as u64) as i64
    } else {
        let m: u64 = abs_u64(a);
        let d: u64 = (m + FX_ONE as u64 - 1) / FX_ONE as u64;
        -(d as i64)
    }
}

/// The scalar representing a whole number of units, clamped.
pub open spec fn fx_from_units_s(u: int) -> int {
    clamp_s(u * (FX_ONE as int))
}

pub open spec fn fx_from_units_i(u: i64) -> i64 {
    fx_from_units_s(u as int) as i64
}

/// Scale a whole unit count into a scalar.
pub fn fx_from_units(u: i64) -> (r: i64)
    ensures
        r as int == fx_from_units_s(u as int),
        r == fx_from_units_i(u),
{
    proof {
        assert(i128::MIN <= (u as int) * (FX_ONE as int) <= i128::MAX) by (nonlinear_arith)
            requires
                i64::MIN <= u <= i64::MAX;
    }
    clamp_i128((u as i128) * (FX_ONE as i128))
}

/// Absolute value of a scalar, clamped.
pub fn fx_abs(a: i64) -> (r: i64)
    ensures
        r as int == clamp_s(abs_s(a as int)),
        r == fx_abs_i(a),
{
    if a < 0 {
        fx_neg(a)
    } else {
        a
    }
}

// Machine-typed forms of the scalar operations. Every result of the
// mathematical forms above lies in [FX_MIN, FX_MAX], so the casts below are
// lossless; contracts elsewhere in the crate are written over these.

pub open spec fn fx_add_i(a: i64, b: i64) -> i64 {
    fx_add_s(a as int, b as int) as i64
}

pub open spec fn fx_sub_i(a: i64, b: i64) -> i64 {
    fx_sub_s(a as int, b as int) as i64
}

pub open spec fn fx_neg_i(a: i64) -> i64 {
    fx_neg_s(a as int) as i64
}

pub open spec fn fx_mul_i(a: i64, b: i64) -> i64 {
    fx_mul_s(a as int, b as int) as i64
}

pub open spec fn fx_div_i(a: i64, b: i64) -> i64 {
    fx_div_s(a as int, b as int) as i64
}

pub open spec fn fx_sqrt_i(a: i64) -> i64 {
    fx_sqrt_s(a as int) as i64
}

pub open spec fn fx_powi_i(b: i64, e: u32) -> i64 {
    fx_powi_s(b as int, e as nat) as i64
}

pub open spec fn fx_floor_units_i(a: i64) -> i64 {
    fx_floor_units_s(a as int) as i64
}

pub open spec fn fx_abs_i(a: i64) -> i64 {
    clamp_s(abs_s(a as int)) as i64
}

/// A fixed-point square is never negative.
pub proof fn lemma_fx_square_nonneg(a: i64)
    ensures
        fx_mul_i(a, a) >= 0,
{
    assert((a as int) * (a as int) >= 0) by (nonlinear_arith);
}

/// Multiplying by zero gives zero.
pub proof fn lemma_fx_mul_zero(a: i64)
    ensures
        fx_mul_i(a, 0) == 0,
        fx_mul_i(0, a) == 0,
{
    assert((a as int) * 0 == 0);
    assert(0 * (a as int) == 0);
    assert(div_trunc_s(0, FX_ONE as int) == 0);
    assert(clamp_s(0) == 0);
}

/// Multiplying by one is the identity on representable scalars.
pub proof fn lemma_fx_mul_one(a: i64)
    requires
        a != i64::MIN,
    ensures
        fx_mul_i(a, FX_ONE) == a,
        fx_mul_i(FX_ONE, a) == a,
{
    let aa = a as int;
    vstd::arithmetic::div_mod::lemma_div_multiples_vanish(abs_s(aa), FX_ONE as int);
    assert(abs_s(aa * (FX_ONE as int)) == (FX_ONE as int) * abs_s(aa)) by (nonlinear_arith);
    assert(abs_s((FX_ONE as int) * aa) == (FX_ONE as int) * abs_s(aa)) by (nonlinear_arith);
    assert(div_trunc_s(aa * (FX_ONE as int), FX_ONE as int) == aa);
    assert(div_trunc_s((FX_ONE as int) * aa, FX_ONE as int) == aa);
    assert(clamp_s(aa) == aa);
}

/// Adding or subtracting zero is the identity on representable scalars.
pub proof fn lemma_fx_add_zero(a: i64)
    requires
        a != i64::MIN,
    ensures
        fx_add_i(a, 0) == a,
        fx_add_i(0, a) == a,
        fx_sub_i(a, 0) == a,
{
    assert(clamp_s(a as int) == a);
}

/// Every operation lands inside the representable range.
pub proof fn lemma_fx_ranges(a: i64, b: i64)
    ensures
        FX_MIN <= fx_mul_i(a, b) <= FX_MAX,
        FX_MIN <= fx_add_i(a, b) <= FX_MAX,
        FX_MIN <= fx_sub_i(a, b) <= FX_MAX,
        FX_MIN <= fx_div_i(a, b) <= FX_MAX,
        FX_MIN <= fx_neg_i(a) <= FX_MAX,
{
    assert(FX_MIN as int <= clamp_s(div_trunc_s((a as int) * (b as int), FX_ONE as int)) <= FX_MAX as int);
    assert(FX_MIN as int <= clamp_s((a as int) + (b as int)) <= FX_MAX as int);
    assert(FX_MIN as int <= clamp_s((a as int) - (b as int)) <= FX_MAX as int);
    assert(FX_MIN as int <= fx_div_s(a as int, b as int) <= FX_MAX as int);
    assert(FX_MIN as int <= clamp_s(-(a as int)) <= FX_MAX as int);
}

/// Truncating division lands within `d - 1` of the exact quotient, scaled
/// back by the divisor.
pub proof fn lemma_div_trunc_close(x: int, d: int)
    requires
        d > 0,
    ensures
        abs_s(d * div_trunc_s(x, d) - x) <= d - 1,
{
    let q = div_trunc_s(x, d);
    if x >= 0 {
        vstd::arithmetic::div_mod::lemma_fundamental_div_mod(x, d);
        vstd::arithmetic::div_mod::lemma_mod_bound(x, d);
        let r = x % d;
        assert(q == x / d);
        assert(x == d * (x / d) + r);
        assert(d * q - x == -r);
    } else {
        vstd::arithmetic::div_mod::lemma_fundamental_div_mod(-x, d);
        vstd::arithmetic::div_mod::lemma_mod_bound(-x, d);
        let m = (-x) / d;
        let r = (-x) % d;
        assert(q == -m);
        assert(-x == d * m + r);
        assert(d * (-m) == -(d * m)) by (nonlinear_arith);
        assert(d * q - x == r);
    }
}

/// The fixed-point square root is never negative.
pub proof fn lemma_fx_sqrt_nonneg(a: i64)
    ensures
        fx_sqrt_i(a) >= 0,
{
    if a >= 0 {
        let n = (a as int) * (FX_ONE as int);
        lemma_isqrt_s_bounds(n);
        assert(n >= 0) by (nonlinear_arith)
            requires
                a >= 0 && n == (a as int) * (FX_ONE as int);
        assert(n <= 0x8000_0000_0000_0000_0000int) by (nonlinear_arith)
            requires
                0 <= a <= 0x7fff_ffff_ffff_ffffi64 && n == (a as int) * (FX_ONE as int);
        assert(isqrt_s(n) <= FX_MAX as int) by (nonlinear_arith)
            requires
                isqrt_s(n) >= 0 && isqrt_s(n) * isqrt_s(n) <= n && n
                    <= 0x8000_0000_0000_0000_0000int;
    }
}

/// Truncating division is monotone in the numerator for a positive divisor.
pub proof fn lemma_div_trunc_monotone(x: int, y: int, d: int)
    requires
        x <= y,
        d > 0,
    ensures
        div_trunc_s(x, d) <= div_trunc_s(y, d),
{
    if x >= 0 {
        vstd::arithmetic::div_mod::lemma_div_is_ordered(x, y, d);
    } else if y < 0 {
        vstd::arithmetic::div_mod::lemma_div_is_ordered(-y, -x, d);
    } else {
        vstd::arithmetic::div_mod::lemma_div_pos_is_pos(y, d);
        vstd::arithmetic::div_mod::lemma_div_pos_is_pos(-x, d);
    }
}

} // verus!
