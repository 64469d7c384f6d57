use bevy_simple_scroll_view::fixed::{divide, div_toward_zero, multiply, saturate_wide, wide_product, SCALE};

#[test]
fn scale_is_one_million() {
    assert_eq!(SCALE, 1_000_000);
}

#[test]
fn division_rounds_toward_zero() {
    assert_eq!(div_toward_zero(7, 2), 3);
    assert_eq!(div_toward_zero(-7, 2), -3);
    assert_eq!(div_toward_zero(6, 2), 3);
    assert_eq!(div_toward_zero(-6, 2), -3);
    assert_eq!(div_toward_zero(0, 5), 0);
    assert_eq!(div_toward_zero(1, 5), 0);
    assert_eq!(div_toward_zero(-1, 5), 0);
}

#[test]
fn saturation_stops_at_the_ends() {
    assert_eq!(saturate_wide(0), 0);
    assert_eq!(saturate_wide(-5), -5);
    assert_eq!(saturate_wide(i64::MAX as i128), i64::MAX);
    assert_eq!(saturate_wide(i64::MAX as i128 + 1), i64::MAX);
    assert_eq!(saturate_wide(i64::MIN as i128), i64::MIN);
    assert_eq!(saturate_wide(i64::MIN as i128 - 1), i64::MIN);
}

#[test]
fn wide_product_is_exact() {
    assert_eq!(wide_product(3, -4), -12);
    assert_eq!(wide_product(i64::MAX, i64::MAX), (i64::MAX as i128) * (i64::MAX as i128));
    assert_eq!(wide_product(i64::MIN, i64::MIN), 1i128 << 126);
    assert_eq!(wide_product(i64::MIN, i64::MAX), (i64::MIN as i128) * (i64::MAX as i128));
}

#[test]
fn multiply_in_fixed_point() {
    // 1.5 * 2.5 = 3.75
    assert_eq!(multiply(1_500_000, 2_500_000), 3_750_000);
    assert_eq!(multiply(-1_500_000, 2_500_000), -3_750_000);
    // 5 * 0.016 = 0.08
    assert_eq!(multiply(5_000_000, 16_000), 80_000);
    // one is neutral, zero absorbs
    assert_eq!(multiply(123_456_789, SCALE), 123_456_789);
    assert_eq!(multiply(-123_456_789, SCALE), -123_456_789);
    assert_eq!(multiply(123_456_789, 0), 0);
}

#[test]
fn multiply_rounds_toward_zero() {
    // 0.000003 * 0.333333 is below one step
    assert_eq!(multiply(3, 333_333), 0);
    assert_eq!(multiply(-3, 333_333), 0);
    // 0.000003 * 0.5 = 0.0000015
    assert_eq!(multiply(3, 500_000), 1);
    assert_eq!(multiply(-3, 500_000), -1);
}

#[test]
fn multiply_saturates() {
    assert_eq!(multiply(i64::MAX, 2_000_000), i64::MAX);
    assert_eq!(multiply(i64::MIN, 2_000_000), i64::MIN);
    assert_eq!(multiply(i64::MAX, -2_000_000), i64::MIN);
    assert_eq!(multiply(i64::MIN, i64::MIN), i64::MAX);
    assert_eq!(multiply(i64::MIN, SCALE), i64::MIN);
}

#[test]
fn divide_in_fixed_point() {
    // -50 / 0.1 = -500
    assert_eq!(divide(-50_000_000, 100_000), -500_000_000);
    // 7 / 3 = 2.333333
    assert_eq!(divide(7_000_000, 3_000_000), 2_333_333);
    assert_eq!(divide(-7_000_000, 3_000_000), -2_333_333);
    // 250 / 4.2 = 59.523809
    assert_eq!(divide(250_000_000, 4_200_000), 59_523_809);
    assert_eq!(divide(0, 1), 0);
    assert_eq!(divide(42, SCALE), 42);
}

#[test]
fn divide_saturates() {
    assert_eq!(divide(i64::MAX, 1), i64::MAX);
    assert_eq!(divide(i64::MIN, 1), i64::MIN);
    assert_eq!(divide(10_000_000_000_000, 1), i64::MAX);
    assert_eq!(divide(-10_000_000_000_000, 1), i64::MIN);
}
