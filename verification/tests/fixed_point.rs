//! Edge cases of the fixed-point scalar layer: exact products and quotients,
//! truncation toward zero, saturation at the representable bound, total
//! division and square root.

use raytrace::fixed::{clamp01, fx_add, fx_div, fx_mul, fx_neg, fx_sqrt, fx_sub, FX_LIMIT, FX_ONE};
use raytrace::vector::{unit_vector, Vector3};

const S: i64 = FX_ONE;

#[test]
fn products_and_quotients_exact() {
    assert_eq!(fx_mul(S, S), S);
    assert_eq!(fx_mul(2 * S, 3 * S), 6 * S);
    assert_eq!(fx_mul(-2 * S, 3 * S), -6 * S);
    assert_eq!(fx_div(3 * S, 2 * S), 98304); // 1.5
    assert_eq!(fx_div(-3 * S, 2 * S), -98304);
    assert_eq!(fx_sub(S, 3 * S), -2 * S);
    assert_eq!(fx_neg(-5), 5);
}

#[test]
fn tiny_products_truncate_toward_zero() {
    assert_eq!(fx_mul(1, 1), 0);
    assert_eq!(fx_mul(-1, 1), 0);
    assert_eq!(fx_mul(255, 255), 0); // 255^2 < 65536
    assert_eq!(fx_mul(256, 256), 1);
}

#[test]
fn saturation_at_the_bound() {
    assert_eq!(fx_mul(i64::MAX, i64::MAX), FX_LIMIT);
    assert_eq!(fx_mul(i64::MIN, i64::MAX), -FX_LIMIT);
    assert_eq!(fx_add(FX_LIMIT, FX_LIMIT), FX_LIMIT);
    assert_eq!(fx_sub(-FX_LIMIT, FX_LIMIT), -FX_LIMIT);
    assert_eq!(fx_neg(i64::MIN), FX_LIMIT);
}

#[test]
fn division_is_total() {
    assert_eq!(fx_div(S, 0), 0);
    assert_eq!(fx_div(0, 7 * S), 0);
    // A vector with zero length normalizes to zero rather than failing.
    assert_eq!(unit_vector(&Vector3::new(0, 0, 0)), Vector3::new(0, 0, 0));
}

#[test]
fn square_root_exact_and_total() {
    assert_eq!(fx_sqrt(4 * S), 2 * S);
    assert_eq!(fx_sqrt(S), S);
    assert_eq!(fx_sqrt(2 * S), 92681); // isqrt semantics: floor
    assert_eq!(fx_sqrt(0), 0);
    assert_eq!(fx_sqrt(-S), 0);
}

#[test]
fn clamping_into_unit_interval() {
    assert_eq!(clamp01(-3), 0);
    assert_eq!(clamp01(12345), 12345);
    assert_eq!(clamp01(S + 1), S);
}
