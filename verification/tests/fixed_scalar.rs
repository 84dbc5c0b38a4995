use pathtracer::fixed::{Fixed, SCALE};
use pathtracer::scalar::Scalar;

fn fx(units: i64, millionths: i64) -> Fixed {
    Fixed::from_raw(units * 1_000_000 + millionths)
}

#[test]
fn integers_are_scaled_by_a_million() {
    assert_eq!(SCALE, 1_000_000);
    assert_eq!(Fixed::from_int(0).raw(), 0);
    assert_eq!(Fixed::from_int(7).raw(), 7_000_000);
    assert_eq!(Fixed::from_int(-3).raw(), -3_000_000);
    assert_eq!(Fixed::from_int(i64::MAX).raw(), i64::MAX);
    assert_eq!(Fixed::from_int(i64::MIN).raw(), i64::MIN);
}

#[test]
fn sums_and_differences_saturate() {
    assert_eq!(fx(1, 500_000).add(fx(2, 250_000)), fx(3, 750_000));
    assert_eq!(fx(1, 0).sub(fx(2, 500_000)), fx(-1, -500_000));
    let top = Fixed::from_raw(i64::MAX);
    let bottom = Fixed::from_raw(i64::MIN);
    assert_eq!(top.add(fx(0, 1)), top);
    assert_eq!(bottom.sub(fx(0, 1)), bottom);
    assert_eq!(bottom.neg(), top);
    assert_eq!(bottom.abs(), top);
    assert_eq!(fx(-2, 0).abs(), fx(2, 0));
    assert_eq!(fx(2, 0).neg(), fx(-2, 0));
}

#[test]
fn products_and_quotients_are_cut_towards_zero() {
    assert_eq!(fx(1, 500_000).mul(fx(-2, 0)), fx(-3, 0));
    assert_eq!(fx(0, 1).mul(fx(0, 999_999)), fx(0, 0));
    assert_eq!(fx(0, -1).mul(fx(0, 999_999)), fx(0, 0));
    assert_eq!(fx(7, 0).div(fx(10, 0)), fx(0, 700_000));
    assert_eq!(fx(1, 0).div(fx(3, 0)), fx(0, 333_333));
    assert_eq!(fx(-1, 0).div(fx(3, 0)), fx(0, -333_333));
    assert_eq!(fx(1, 0).div(fx(-3, 0)), fx(0, -333_333));
    assert_eq!(fx(-1, 0).div(fx(-3, 0)), fx(0, 333_333));
    assert_eq!(Fixed::from_raw(i64::MAX).mul(fx(2, 0)), Fixed::from_raw(i64::MAX));
    assert_eq!(Fixed::from_raw(i64::MIN).mul(Fixed::from_raw(i64::MIN)), Fixed::from_raw(i64::MAX));
    assert_eq!(Fixed::from_raw(i64::MIN).mul(fx(2, 0)), Fixed::from_raw(i64::MIN));
}

#[test]
fn division_by_zero_goes_to_the_end_of_the_range() {
    assert_eq!(fx(1, 0).div(fx(0, 0)), Fixed::from_raw(i64::MAX));
    assert_eq!(fx(-1, 0).div(fx(0, 0)), Fixed::from_raw(i64::MIN));
    assert_eq!(fx(0, 0).div(fx(0, 0)), fx(0, 0));
}

#[test]
fn roots_are_cut_to_six_places() {
    assert_eq!(fx(0, 250_000).sqrt(), fx(0, 500_000));
    assert_eq!(fx(4, 0).sqrt(), fx(2, 0));
    assert_eq!(fx(2, 0).sqrt(), fx(1, 414_213));
    assert_eq!(fx(0, 0).sqrt(), fx(0, 0));
    assert_eq!(fx(-4, 0).sqrt(), fx(0, 0));
    assert_eq!(fx(0, 1).sqrt(), fx(0, 1_000));
    assert_eq!(Fixed::from_raw(i64::MAX).sqrt().raw(), 3_037_000_499_976);
}

#[test]
fn comparisons_follow_the_raw_units() {
    assert!(fx(1, 0).lt(fx(1, 1)));
    assert!(!fx(1, 0).lt(fx(1, 0)));
    assert!(fx(1, 0).le(fx(1, 0)));
    assert!(!fx(1, 1).le(fx(1, 0)));
    assert!(fx(-1, 0).lt(fx(0, 0)));
}

#[test]
fn bytes_hold_the_integer_part() {
    assert_eq!(fx(0, 999_999).to_byte(), 0);
    assert_eq!(fx(127, 999_999).to_byte(), 127);
    assert_eq!(fx(255, 0).to_byte(), 255);
    assert_eq!(fx(255, 999_999).to_byte(), 255);
    assert_eq!(fx(256, 0).to_byte(), 255);
    assert_eq!(fx(-1, 0).to_byte(), 0);
    assert_eq!(Fixed::from_raw(i64::MAX).to_byte(), 255);
}
