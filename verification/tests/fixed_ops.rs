//! Exact values of the fixed-point scalar operations.
use voxeltrace::fixed::FX_ONE;
use voxeltrace::fixed::FX_SAT;
use voxeltrace::fixed::add_fx;
use voxeltrace::fixed::cos_fx;
use voxeltrace::fixed::div_fx;
use voxeltrace::fixed::fract_div;
use voxeltrace::fixed::mul_fx;
use voxeltrace::fixed::neg_fx;
use voxeltrace::fixed::pow_fx;
use voxeltrace::fixed::sin_fx;
use voxeltrace::fixed::sqrt_u128;
use voxeltrace::fixed::sub_fx;

#[test]
fn mul_of_whole_numbers_is_exact() {
    assert_eq!(mul_fx(3 * FX_ONE, 2 * FX_ONE), 6 * FX_ONE);
    assert_eq!(mul_fx(-3 * FX_ONE, 2 * FX_ONE), -6 * FX_ONE);
    assert_eq!(mul_fx(5 * FX_ONE, 0), 0);
}

#[test]
fn mul_truncates_toward_zero() {
    // 1.5 * -1 = -1.5 exactly representable; 1/3 * 1/3 truncates.
    assert_eq!(mul_fx(98304, -FX_ONE), -98304);
    let third = div_fx(FX_ONE, 3 * FX_ONE);
    assert_eq!(third, 21845);
    assert_eq!(mul_fx(third, third), (21845i64 * 21845) / 65536);
}

#[test]
fn div_matches_long_division() {
    assert_eq!(div_fx(9 * FX_ONE, 2 * FX_ONE), 4 * FX_ONE + FX_ONE / 2);
    assert_eq!(div_fx(-9 * FX_ONE, 2 * FX_ONE), -(4 * FX_ONE + FX_ONE / 2));
    assert_eq!(div_fx(FX_ONE, 3 * FX_ONE), 21845);
}

#[test]
fn add_and_sub_saturate() {
    assert_eq!(add_fx(FX_SAT, FX_SAT), FX_SAT);
    assert_eq!(sub_fx(-FX_SAT, FX_SAT), -FX_SAT);
    assert_eq!(add_fx(7, -7), 0);
    assert_eq!(neg_fx(42), -42);
}

#[test]
fn sqrt_of_perfect_squares() {
    assert_eq!(sqrt_u128(0), 0);
    assert_eq!(sqrt_u128(1), 1);
    assert_eq!(sqrt_u128(144), 12);
    assert_eq!(sqrt_u128(145), 12);
    assert_eq!(sqrt_u128(25 * (FX_ONE as u128) * (FX_ONE as u128)), 5 * FX_ONE as u128);
}

#[test]
fn trig_at_zero_is_exact() {
    assert_eq!(sin_fx(0), 0);
    assert_eq!(cos_fx(0), FX_ONE);
}

#[test]
fn trig_stays_in_unit_range() {
    let mut a: i64 = -500000;
    while a <= 500000 {
        assert!(sin_fx(a) >= -FX_ONE && sin_fx(a) <= FX_ONE);
        assert!(cos_fx(a) >= -FX_ONE && cos_fx(a) <= FX_ONE);
        a += 13333;
    }
}

#[test]
fn pow_matches_repeated_multiplication() {
    assert_eq!(pow_fx(3 * FX_ONE, 0), FX_ONE);
    assert_eq!(pow_fx(3 * FX_ONE, 1), 3 * FX_ONE);
    assert_eq!(pow_fx(2 * FX_ONE, 10), 1024 * FX_ONE);
    assert_eq!(pow_fx(FX_ONE / 2, 2), FX_ONE / 4);
}

#[test]
fn fract_wraps_negatives_into_unit_range() {
    // fract(-0.5) wraps to 0.5 of the edge, so tiling continues seamlessly.
    assert_eq!(fract_div(-32768, FX_ONE), 32768);
    assert_eq!(fract_div(32768, FX_ONE), 32768);
    assert_eq!(fract_div(3 * FX_ONE + 17, FX_ONE), 17);
    let u = fract_div(-123457, 3 * FX_ONE);
    assert!(u >= 0 && u < FX_ONE);
}
