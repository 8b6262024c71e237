use softpipe::fixed::{
    fx_abs, fx_add, fx_asin, fx_atan2, fx_clamp64, fx_clamp_to, fx_cos, fx_div, fx_mul, fx_sin,
    fx_sqrt, fx_sub, fx_tdiv_small, fx_to_px, isqrt_u128, FX_HALF_PI, FX_LIMIT, FX_ONE, FX_PI,
    FX_TWO_PI,
};

#[test]
fn add_sub_basic() {
    assert_eq!(fx_add(65536, 65536), 131072);
    assert_eq!(fx_sub(65536, 131072), -65536);
    assert_eq!(fx_add(-5, 5), 0);
}

#[test]
fn add_saturates_at_window() {
    assert_eq!(fx_add(FX_LIMIT, FX_LIMIT), FX_LIMIT);
    assert_eq!(fx_sub(-FX_LIMIT, FX_LIMIT), -FX_LIMIT);
    assert_eq!(fx_add(i64::MAX, i64::MAX), FX_LIMIT);
}

#[test]
fn mul_exact_and_saturating() {
    // 1.5 * 2.0 == 3.0
    assert_eq!(fx_mul(98304, 131072), 196608);
    // (-1.5) * 2.0 == -3.0, truncating toward zero
    assert_eq!(fx_mul(-98304, 131072), -196608);
    assert_eq!(fx_mul(FX_LIMIT, FX_LIMIT), FX_LIMIT);
    assert_eq!(fx_mul(0, 12345), 0);
}

#[test]
fn div_exact_and_by_zero() {
    // 3.0 / 2.0 == 1.5
    assert_eq!(fx_div(196608, 131072), 98304);
    assert_eq!(fx_div(5, 0), FX_LIMIT);
    assert_eq!(fx_div(-5, 0), -FX_LIMIT);
    assert_eq!(fx_div(0, 0), 0);
}

#[test]
fn abs_and_clamps() {
    assert_eq!(fx_abs(-123), 123);
    assert_eq!(fx_abs(i64::MIN), FX_LIMIT);
    assert_eq!(fx_clamp64(i64::MAX), FX_LIMIT);
    assert_eq!(fx_clamp64(-7), -7);
    assert_eq!(fx_clamp_to(10, 0, 5), 5);
    assert_eq!(fx_clamp_to(-10, 0, 5), 0);
    assert_eq!(fx_clamp_to(3, 0, 5), 3);
}

#[test]
fn truncating_division_helpers() {
    assert_eq!(fx_tdiv_small(7, 2), 3);
    assert_eq!(fx_tdiv_small(-7, 2), -3);
    assert_eq!(fx_to_px(4 * FX_ONE), 4);
    assert_eq!(fx_to_px(-4 * FX_ONE - 1), -4);
    assert_eq!(fx_to_px(65535), 0);
}

#[test]
fn integer_square_roots() {
    assert_eq!(isqrt_u128(0), 0);
    assert_eq!(isqrt_u128(1), 1);
    assert_eq!(isqrt_u128(2), 1);
    assert_eq!(isqrt_u128(4), 2);
    assert_eq!(isqrt_u128(1_000_000_000_000), 1_000_000);
    // sqrt(1.0) == 1.0 in fixed point
    assert_eq!(fx_sqrt(FX_ONE), FX_ONE);
    // sqrt(4.0) == 2.0
    assert_eq!(fx_sqrt(4 * FX_ONE), 2 * FX_ONE);
    assert_eq!(fx_sqrt(-5), 0);
}

#[test]
fn sine_quarter_points() {
    assert_eq!(fx_sin(0), 0);
    assert_eq!(fx_sin(FX_HALF_PI), FX_ONE);
    assert_eq!(fx_sin(FX_PI), 0);
    assert_eq!(fx_sin(FX_PI + FX_HALF_PI), -FX_ONE);
    assert_eq!(fx_sin(FX_TWO_PI), 0);
    assert_eq!(fx_sin(-FX_HALF_PI), -FX_ONE);
    // pi/4: the parabola gives 0.75 exactly
    assert_eq!(fx_sin(51472), 49152);
}

#[test]
fn cosine_quarter_points() {
    assert_eq!(fx_cos(0), FX_ONE);
    assert_eq!(fx_cos(FX_HALF_PI), -1);
    assert_eq!(fx_cos(FX_PI), -FX_ONE);
    assert_eq!(fx_cos(FX_TWO_PI), FX_ONE);
    assert_eq!(fx_cos(51472), 49151);
}

#[test]
fn sine_stays_in_unit_range() {
    let mut x: i64 = -1_000_000;
    while x <= 1_000_000 {
        let s = fx_sin(x);
        let c = fx_cos(x);
        assert!(-FX_ONE <= s && s <= FX_ONE);
        assert!(-FX_ONE <= c && c <= FX_ONE);
        x += 7919;
    }
}

#[test]
fn arctangent_values() {
    assert_eq!(fx_atan2(0, 0), 0);
    assert_eq!(fx_atan2(0, FX_ONE), 0);
    // atan2(1, 1) == pi/4 exactly under the polynomial
    assert_eq!(fx_atan2(FX_ONE, FX_ONE), 51472);
    assert_eq!(fx_atan2(FX_ONE, 0), 102944);
    assert_eq!(fx_atan2(-FX_ONE, -FX_ONE), -154415);
}

#[test]
fn arcsine_values() {
    assert_eq!(fx_asin(0), 0);
    assert_eq!(fx_asin(FX_ONE), 102944);
    assert_eq!(fx_asin(32768), 34082);
    // arguments beyond one are clamped
    assert_eq!(fx_asin(10 * FX_ONE), 102944);
}
