use platformer_core::math::{abs_i64, clamp_i64, dist3_i64, div_fx, isqrt_u128, sgn_i64};

#[test]
fn sgn_of_each_sign() {
    assert_eq!(sgn_i64(42), 1);
    assert_eq!(sgn_i64(-42), -1);
    assert_eq!(sgn_i64(0), 0);
}

#[test]
fn div_fx_truncates_toward_zero() {
    assert_eq!(div_fx(7, 2), 3);
    assert_eq!(div_fx(-7, 2), -3);
    assert_eq!(div_fx(0, 5), 0);
    assert_eq!(div_fx(-1, 1200), 0);
}

#[test]
fn clamp_within_and_outside() {
    assert_eq!(clamp_i64(5, -3, 3), 3);
    assert_eq!(clamp_i64(-5, -3, 3), -3);
    assert_eq!(clamp_i64(2, -3, 3), 2);
}

#[test]
fn abs_of_each_sign() {
    assert_eq!(abs_i64(-9), 9);
    assert_eq!(abs_i64(9), 9);
    assert_eq!(abs_i64(0), 0);
}

#[test]
fn isqrt_exact_and_floor() {
    assert_eq!(isqrt_u128(0), 0);
    assert_eq!(isqrt_u128(1), 1);
    assert_eq!(isqrt_u128(10), 3);
    assert_eq!(isqrt_u128(144), 12);
    assert_eq!(isqrt_u128(145), 12);
    assert_eq!(isqrt_u128(1_000_000_000_000), 1_000_000);
}

#[test]
fn dist3_pythagorean() {
    assert_eq!(dist3_i64(0, 0, 0, 3, 4, 0), 5);
    assert_eq!(dist3_i64(1, 2, 3, 1, 2, 3), 0);
    assert_eq!(dist3_i64(0, 0, 0, 1, 1, 0), 1);
    assert_eq!(dist3_i64(-3, 0, 0, 0, -4, 0), 5);
}
