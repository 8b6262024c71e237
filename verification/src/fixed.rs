//! 16.16 fixed-point scalar arithmetic.
//!
//! A fixed-point value stores `real * 65536` in an `i64`. Every operation
//! clamps its result into the window `[-FX_LIMIT, FX_LIMIT]`, so the
//! arithmetic is total: no operation panics and no intermediate overflows,
//! mirroring how a floating-point pipeline saturates rather than traps.

use vstd::prelude::*;

verus! {

/// One whole unit in 16.16 fixed point.
pub const FX_ONE: i64 = 65536;

/// Largest magnitude a fixed-point value may take (2^46, about 2^30 units).
pub const FX_LIMIT: i64 = 0x4000_0000_0000;

/// Pi in 16.16 fixed point (round(pi * 65536)).
pub const FX_PI: i64 = 205887;

/// Two pi in 16.16 fixed point.
pub const FX_TWO_PI: i64 = 411775;

/// Half pi in 16.16 fixed point.
pub const FX_HALF_PI: i64 = 102944;

/// The sine parabola's scaling divisor: just under FX_PI * FX_PI / FX_ONE,
/// chosen so the parabola's peak reaches exactly one before the clamp, and
/// the quarter-period points are exact (sin of half pi is FX_ONE, cosine of
/// zero is FX_ONE).
pub const FX_SIN_DIVISOR: i64 = 646811;

/// Absolute value of a mathematical integer.
pub open spec fn s_abs(a: int) -> int {
    if a >= 0 {
        a
    } else {
        -a
    }
}

/// Truncating division (rounds toward zero), as Rust's `/` on integers.
/// Unspecified when `b == 0`; every caller guards the divisor.
pub open spec fn s_tdiv(a: int, b: int) -> int {
    if (a >= 0) == (b >= 0) {
        s_abs(a) / s_abs(b)
    } else {
        -(s_abs(a) / s_abs(b))
    }
}

/// Clamp an integer into the representable fixed-point window.
pub open spec fn s_fx_clamp(v: int) -> int {
    if v < -FX_LIMIT {
        -FX_LIMIT as int
    } else if v > FX_LIMIT {
        FX_LIMIT as int
    } else {
        v
    }
}

/// Whether a value lies in the representable fixed-point window.
pub open spec fn fx_ok(v: int) -> bool {
    -FX_LIMIT <= v <= FX_LIMIT
}

/// Saturating fixed-point addition.
pub open spec fn s_fx_add(a: int, b: int) -> int {
    s_fx_clamp(a + b)
}

/// Saturating fixed-point subtraction.
pub open spec fn s_fx_sub(a: int, b: int) -> int {
    s_fx_clamp(a - b)
}

/// Saturating fixed-point multiplication: (a * b) / FX_ONE, truncated.
pub open spec fn s_fx_mul(a: int, b: int) -> int {
    s_fx_clamp(s_tdiv(a * b, FX_ONE as int))
}

/// Saturating fixed-point division: (a * FX_ONE) / b, truncated.
/// Division by zero saturates to the window edge with the sign of `a`.
pub open spec fn s_fx_div(a: int, b: int) -> int {
    if b == 0 {
        if a > 0 {
            FX_LIMIT as int
        } else if a < 0 {
            -FX_LIMIT as int
        } else {
            0
        }
    } else {
        s_fx_clamp(s_tdiv(a * FX_ONE, b))
    }
}

/// Clamp a wide intermediate into the fixed-point window.
pub(crate) fn fx_clamp_wide(v: i128) -> (r: i64)
    ensures
        r == s_fx_clamp(v as int),
        fx_ok(r as int),
{
    if v < -FX_LIMIT as i128 {
        -FX_LIMIT
    } else if v > FX_LIMIT as i128 {
        FX_LIMIT
    } else {
        v as i64
    }
}

/// Truncating division of wide intermediates; divisor must be nonzero.
pub(crate) fn tdiv_wide(a: i128, b: i128) -> (r: i128)
    requires
        b != 0,
        a != i128::MIN,
    ensures
        r == s_tdiv(a as int, b as int),
{
    let q = a.checked_div(b);
    proof {
        lemma_checked_div_is_tdiv(a as int, b as int);
    }
    q.unwrap()
}

/// vstd's `checked_div` formula agrees with `s_tdiv` whenever the
/// quotient is representable.
proof fn lemma_checked_div_is_tdiv(a: int, b: int)
    requires
        b != 0,
    ensures
        (if a == 0 {
            0int
        } else if a > 0 && b > 0 {
            a / b
        } else if a < 0 && b < 0 {
            (a * -1) / (b * -1)
        } else if a < 0 {
            ((a * -1) / b) * -1
        } else {
            (a / (b * -1)) * -1
        }) == s_tdiv(a, b),
{
    if a == 0 {
        assert(s_abs(0int) / s_abs(b) == 0) by {
            vstd::arithmetic::div_mod::lemma_basic_div(0int, s_abs(b));
        }
    }
}

/// Saturating fixed-point addition.
pub fn fx_add(a: i64, b: i64) -> (r: i64)
    ensures
        r == s_fx_add(a as int, b as int),
        fx_ok(r as int),
{
    fx_clamp_wide(a as i128 + b as i128)
}

/// Saturating fixed-point subtraction.
pub fn fx_sub(a: i64, b: i64) -> (r: i64)
    ensures
        r == s_fx_sub(a as int, b as int),
        fx_ok(r as int),
{
    fx_clamp_wide(a as i128 - b as i128)
}

/// Saturating fixed-point multiplication.
pub fn fx_mul(a: i64, b: i64) -> (r: i64)
    ensures
        r == s_fx_mul(a as int, b as int),
        fx_ok(r as int),
{
    proof {
        assert(-0x4000_0000_0000_0000_0000_0000_0000_0000 <= (a as int) * (b as int)
            <= 0x4000_0000_0000_0000_0000_0000_0000_0000) by (nonlinear_arith)
            requires
                -0x8000_0000_0000_0000 <= a as int <= 0x7fff_ffff_ffff_ffff,
                -0x8000_0000_0000_0000 <= b as int <= 0x7fff_ffff_ffff_ffff,
        ;
    }
    let p: i128 = (a as i128) * (b as i128);
    let q = tdiv_wide(p, FX_ONE as i128);
    fx_clamp_wide(q)
}

/// Saturating fixed-point division; division by zero saturates.
pub fn fx_div(a: i64, b: i64) -> (r: i64)
    ensures
        r == s_fx_div(a as int, b as int),
        fx_ok(r as int),
{
    if b == 0 {
        if a > 0 {
            FX_LIMIT
        } else if a < 0 {
            -FX_LIMIT
        } else {
            0
        }
    } else {
        proof {
            assert(-0x4000_0000_0000_0000_0000_0000_0000_0000 <= (a as int) * (FX_ONE as int)
                <= 0x4000_0000_0000_0000_0000_0000_0000_0000) by (nonlinear_arith)
                requires
                    -0x8000_0000_0000_0000 <= a as int <= 0x7fff_ffff_ffff_ffff,
            ;
        }
        let p: i128 = (a as i128) * (FX_ONE as i128);
        let q = tdiv_wide(p, b as i128);
        fx_clamp_wide(q)
    }
}

/// Absolute value, saturated into the fixed-point window.
pub fn fx_abs(a: i64) -> (r: i64)
    ensures
        r == s_fx_clamp(s_abs(a as int)),
        fx_ok(r as int),
{
    if a >= 0 {
        fx_clamp_wide(a as i128)
    } else {
        fx_clamp_wide(-(a as i128))
    }
}

/// Clamp an integer into an inclusive range.
pub open spec fn s_clamp(v: int, lo: int, hi: int) -> int {
    if v < lo {
        lo
    } else if v > hi {
        hi
    } else {
        v
    }
}

/// Clamp a value into the inclusive range `[lo, hi]`.
pub fn fx_clamp_to(v: i64, lo: i64, hi: i64) -> (r: i64)
    requires
        lo <= hi,
    ensures
        r == s_clamp(v as int, lo as int, hi as int),
{
    if v < lo {
        lo
    } else if v > hi {
        hi
    } else {
        v
    }
}

/// Saturate a value into the fixed-point window.
pub fn fx_clamp64(v: i64) -> (r: i64)
    ensures
        r == s_fx_clamp(v as int),
        fx_ok(r as int),
{
    fx_clamp_wide(v as i128)
}

/// Truncating division by a positive divisor; the magnitude never grows.
pub fn fx_tdiv_small(a: i64, b: i64) -> (r: i64)
    requires
        b > 0,
    ensures
        r == s_tdiv(a as int, b as int),
        s_abs(r as int) <= s_abs(a as int),
{
    let q = tdiv_wide(a as i128, b as i128);
    proof {
        vstd::arithmetic::div_mod::lemma_div_nonincreasing(s_abs(a as int), b as int);
        vstd::arithmetic::div_mod::lemma_div_pos_is_pos(s_abs(a as int), b as int);
    }
    q as i64
}

/// Round a fixed-point screen coordinate down to its pixel index
/// (truncation toward zero, as a float-to-integer cast would).
pub fn fx_to_px(v: i64) -> (r: i64)
    ensures
        r == s_tdiv(v as int, FX_ONE as int),
        s_abs(r as int) <= s_abs(v as int),
{
    let q = tdiv_wide(v as i128, FX_ONE as i128);
    proof {
        vstd::arithmetic::div_mod::lemma_div_nonincreasing(s_abs(v as int), FX_ONE as int);
        vstd::arithmetic::div_mod::lemma_div_pos_is_pos(s_abs(v as int), FX_ONE as int);
    }
    q as i64
}

/// Multiplying by the fixed-point scale and truncating back is the
/// identity.
pub proof fn lemma_tdiv_scale_cancel(a: int)
    ensures
        s_tdiv(a * FX_ONE, FX_ONE as int) == a,
{
    if a >= 0 {
        vstd::arithmetic::div_mod::lemma_div_by_multiple(a, FX_ONE as int);
    } else {
        vstd::arithmetic::div_mod::lemma_div_by_multiple(-a, FX_ONE as int);
        assert(s_abs(a * FX_ONE) == (-a) * FX_ONE);
    }
}

/// `r` is the integer square root (floor) of `n`.
pub open spec fn is_sqrt_floor(n: int, r: int) -> bool {
    &&& 0 <= r
    &&& r * r <= n
    &&& n < (r + 1) * (r + 1)
}

/// The integer square root (floor) of a nonnegative integer.
pub open spec fn sqrt_floor(n: int) -> int {
    choose|r: int| is_sqrt_floor(n, r)
}

/// The integer square root is unique, so any witness equals `sqrt_floor`.
pub proof fn lemma_sqrt_floor_unique(n: int, r: int)
    requires
        is_sqrt_floor(n, r),
    ensures
        sqrt_floor(n) == r,
{
    assert(exists|x: int| is_sqrt_floor(n, x)) by {
        assert(is_sqrt_floor(n, r));
    }
    let w = sqrt_floor(n);
    assert(is_sqrt_floor(n, w));
    if w < r {
        assert((w + 1) * (w + 1) <= r * r) by (nonlinear_arith)
            requires
                0 <= w,
                w + 1 <= r,
        ;
    }
    if r < w {
        assert((r + 1) * (r + 1) <= w * w) by (nonlinear_arith)
            requires
                0 <= r,
                r + 1 <= w,
        ;
    }
}

/// Integer square root by bisection.
pub fn isqrt_u128(n: u128) -> (r: u128)
    ensures
        is_sqrt_floor(n as int, r as int),
        r == sqrt_floor(n as int),
{
    let mut lo: u128 = 0;
    let mut hi: u128 = 0x1_0000_0000_0000_0000;
    proof {
        assert((0x1_0000_0000_0000_0000 as int) * (0x1_0000_0000_0000_0000 as int)
            > u128::MAX as int) by (nonlinear_arith);
    }
    while hi - lo > 1
        invariant
            lo < hi,
            hi <= 0x1_0000_0000_0000_0000,
            (lo as int) * (lo as int) <= n as int,
            (n as int) < (hi as int) * (hi as int),
        decreases hi - lo,
    {
        let mid = lo + (hi - lo) / 2;
        proof {
            assert((mid as int) * (mid as int) <= u128::MAX as int) by (nonlinear_arith)
                requires
                    0 <= mid as int <= 0xffff_ffff_ffff_ffff,
                    u128::MAX as int == 0xffff_ffff_ffff_ffff_ffff_ffff_ffff_ffff,
            ;
        }
        if mid * mid <= n {
            lo = mid;
        } else {
            hi = mid;
        }
    }
    proof {
        lemma_sqrt_floor_unique(n as int, lo as int);
    }
    lo
}

/// Square root of a nonnegative fixed-point value, in fixed point:
/// `sqrt_floor(v * FX_ONE)` since `sqrt(v / S) * S == sqrt(v * S)`.
pub open spec fn s_fx_sqrt(v: int) -> int {
    if v <= 0 {
        0
    } else {
        sqrt_floor(v * FX_ONE)
    }
}

/// Fixed-point square root; negative inputs give zero.
pub fn fx_sqrt(v: i64) -> (r: i64)
    ensures
        r == s_fx_sqrt(v as int),
        0 <= r <= 0x100_0000_0000,
{
    if v <= 0 {
        0
    } else {
        proof {
            assert((v as int) * (FX_ONE as int) <= 0x8000_0000_0000_0000_0000_0000)
                by (nonlinear_arith)
                requires
                    0 < v as int <= 0x7fff_ffff_ffff_ffff,
            ;
        }
        let wide: u128 = (v as u128) * (FX_ONE as u128);
        let root = isqrt_u128(wide);
        proof {
            assert(root as int * (root as int) <= wide as int);
            assert(wide as int <= 0x8000_0000_0000_0000_0000) by (nonlinear_arith)
                requires
                    wide as int == (v as int) * (FX_ONE as int),
                    0 < v as int <= 0x7fff_ffff_ffff_ffff,
            ;
            assert(root as int <= 0x100_0000_0000) by {
                if root as int > 0x100_0000_0000 {
                    assert((root as int) * (root as int) > 0x1_0000_0000_0000_0000_0000)
                        by (nonlinear_arith)
                        requires
                            root as int >= 0x100_0000_0001,
                    ;
                }
            }
        }
        root as i64
    }
}

/// Sine parabola on `[0, FX_PI]`; the peak saturates exactly at one.
pub open spec fn s_sin_half(t: int) -> int {
    let v = s_tdiv(4 * t * (FX_PI - t), FX_SIN_DIVISOR as int);
    if v > FX_ONE {
        FX_ONE as int
    } else {
        v
    }
}

/// Fixed-point sine approximation: the angle is reduced modulo two pi
/// and each half period is a parabola through its zeroes and peak.
pub open spec fn s_sin(x: int) -> int {
    let t = x % (FX_TWO_PI as int);
    if t < FX_PI {
        s_sin_half(t)
    } else {
        -s_sin_half(t - FX_PI)
    }
}

/// Fixed-point cosine approximation: sine shifted by half pi.
pub open spec fn s_cos(x: int) -> int {
    s_sin((x % (FX_TWO_PI as int)) + FX_HALF_PI)
}

fn sin_parabola(t: i64) -> (r: i64)
    requires
        0 <= t <= FX_PI,
    ensures
        r == s_sin_half(t as int),
        0 <= r <= FX_ONE,
{
    proof {
        assert(0 <= 4 * (t as int) * (FX_PI - t as int) <= 0x4_0000_0000_0000) by (nonlinear_arith)
            requires
                0 <= t as int <= 205887,
        ;
    }
    let u: i64 = 4 * t * (FX_PI - t);
    let qo = u.checked_div(FX_SIN_DIVISOR);
    proof {
        vstd::arithmetic::div_mod::lemma_div_pos_is_pos(u as int, FX_SIN_DIVISOR as int);
        vstd::arithmetic::div_mod::lemma_div_nonincreasing(u as int, FX_SIN_DIVISOR as int);
        if u > 0 {
            assert(s_tdiv(u as int, FX_SIN_DIVISOR as int)
                == u as int / (FX_SIN_DIVISOR as int));
        } else {
            vstd::arithmetic::div_mod::lemma_basic_div(0int, FX_SIN_DIVISOR as int);
        }
    }
    let q = qo.unwrap();
    if q > FX_ONE {
        FX_ONE
    } else {
        q
    }
}

/// Fixed-point sine; the result lies in `[-FX_ONE, FX_ONE]`.
pub fn fx_sin(x: i64) -> (r: i64)
    ensures
        r == s_sin(x as int),
        -FX_ONE <= r <= FX_ONE,
{
    let tm = x.checked_rem_euclid(FX_TWO_PI);
    proof {
        vstd::arithmetic::div_mod::lemma_mod_bound(x as int, FX_TWO_PI as int);
    }
    let t = tm.unwrap();
    if t < FX_PI {
        sin_parabola(t)
    } else {
        let s = sin_parabola(t - FX_PI);
        -s
    }
}

/// Fixed-point cosine; the result lies in `[-FX_ONE, FX_ONE]`.
pub fn fx_cos(x: i64) -> (r: i64)
    ensures
        r == s_cos(x as int),
        -FX_ONE <= r <= FX_ONE,
{
    let tm = x.checked_rem_euclid(FX_TWO_PI);
    proof {
        vstd::arithmetic::div_mod::lemma_mod_bound(x as int, FX_TWO_PI as int);
    }
    let t = tm.unwrap();
    fx_sin(t + FX_HALF_PI)
}

/// Quarter pi in 16.16 fixed point.
pub const FX_QUARTER_PI: i64 = 51472;

/// round(0.273 * FX_ONE): the correction weight of the arctangent polynomial.
pub const FX_ATAN_K: i64 = 17891;

/// Arctangent polynomial on `[-FX_ONE, FX_ONE]`:
/// `atan(t) ~ (pi/4) t + 0.273 t (1 - |t|)`.
pub open spec fn s_atan_unit(t: int) -> int {
    s_fx_mul(t, s_fx_add(FX_QUARTER_PI as int, s_fx_mul(FX_ATAN_K as int, FX_ONE - s_abs(t))))
}

/// Fixed-point two-argument arctangent, by octant reduction over the
/// unit-interval polynomial; `s_atan2(0, 0) == 0`.
pub open spec fn s_atan2(y: int, x: int) -> int {
    if x == 0 && y == 0 {
        0
    } else if s_abs(y) <= s_abs(x) {
        let a = s_atan_unit(s_fx_div(y, x));
        if x > 0 {
            a
        } else if y >= 0 {
            s_fx_add(a, FX_PI as int)
        } else {
            s_fx_sub(a, FX_PI as int)
        }
    } else {
        let a = s_atan_unit(s_fx_div(x, y));
        if y > 0 {
            s_fx_sub(FX_HALF_PI as int, a)
        } else {
            s_fx_sub(-(FX_HALF_PI as int), a)
        }
    }
}

fn atan_unit(t: i64) -> (r: i64)
    requires
        fx_ok(t as int),
    ensures
        r == s_atan_unit(t as int),
{
    let a = fx_abs(t);
    let c = fx_mul(FX_ATAN_K, FX_ONE - a);
    fx_mul(t, fx_add(FX_QUARTER_PI, c))
}

/// Fixed-point two-argument arctangent.
pub fn fx_atan2(y: i64, x: i64) -> (r: i64)
    requires
        fx_ok(y as int),
        fx_ok(x as int),
    ensures
        r == s_atan2(y as int, x as int),
{
    if x == 0 && y == 0 {
        return 0;
    }
    let ay = fx_abs(y);
    let ax = fx_abs(x);
    if ay <= ax {
        let a = atan_unit(fx_div(y, x));
        if x > 0 {
            a
        } else if y >= 0 {
            fx_add(a, FX_PI)
        } else {
            fx_sub(a, FX_PI)
        }
    } else {
        let a = atan_unit(fx_div(x, y));
        if y > 0 {
            fx_sub(FX_HALF_PI, a)
        } else {
            fx_sub(-FX_HALF_PI, a)
        }
    }
}

/// Fixed-point arcsine: the argument is clamped to `[-FX_ONE, FX_ONE]`
/// and the identity `asin(v) == atan2(v, sqrt(1 - v^2))` is applied.
pub open spec fn s_asin(v: int) -> int {
    let c = s_clamp(v, -FX_ONE as int, FX_ONE as int);
    s_atan2(c, s_fx_sqrt(FX_ONE - s_fx_mul(c, c)))
}

/// Fixed-point arcsine; arguments beyond one in magnitude are clamped.
pub fn fx_asin(v: i64) -> (r: i64)
    ensures
        r == s_asin(v as int),
{
    let c = fx_clamp_to(v, -FX_ONE, FX_ONE);
    let root = fx_sqrt(FX_ONE - fx_mul(c, c));
    fx_atan2(c, root)
}

} // verus!
