use speedtest_pro_backend::fixed::{mean_of, Fixed, SCALE};
use speedtest_pro_backend::stats::sorted_copy;

fn fx(x: f64) -> Fixed {
    Fixed::from_micros((x * 1_000_000.0).round() as i64)
}

fn list(values: &[f64]) -> Vec<Fixed> {
    values.iter().map(|v| fx(*v)).collect()
}

#[test]
fn scale_is_a_million() {
    assert_eq!(SCALE, 1_000_000);
    assert_eq!(Fixed::from_int(3).micros, 3_000_000);
    assert_eq!(Fixed::from_int(-7).micros, -7_000_000);
    assert_eq!(Fixed::zero().micros, 0);
    assert_eq!(Fixed::from_micros(42).micros, 42);
}

#[test]
fn comparisons() {
    assert!(fx(1.5).micros < fx(2.0).micros);
    assert_eq!(fx(2.0), Fixed::from_micros(2_000_000));
    assert_ne!(fx(2.0), fx(2.000001));
    assert_eq!(fx(1.0).max_of(fx(3.0)), fx(3.0));
    assert_eq!(fx(3.0).max_of(fx(1.0)), fx(3.0));
}

#[test]
fn addition_and_subtraction_saturate() {
    assert_eq!(fx(1.25).saturating_add(fx(2.5)), fx(3.75));
    assert_eq!(fx(1.25).saturating_sub(fx(2.5)), fx(-1.25));
    let top = Fixed::from_micros(i64::MAX);
    let bottom = Fixed::from_micros(i64::MIN);
    assert_eq!(top.saturating_add(fx(1.0)), top);
    assert_eq!(bottom.saturating_sub(fx(1.0)), bottom);
    assert_eq!(bottom.saturating_sub(top), bottom);
    assert_eq!(top.saturating_sub(bottom), top);
}

#[test]
fn distance_is_symmetric() {
    assert_eq!(fx(10.0).abs_diff(fx(11.5)), fx(1.5));
    assert_eq!(fx(11.5).abs_diff(fx(10.0)), fx(1.5));
    assert_eq!(fx(-2.0).abs_diff(fx(3.0)), fx(5.0));
    let top = Fixed::from_micros(i64::MAX);
    let bottom = Fixed::from_micros(i64::MIN);
    assert_eq!(top.abs_diff(bottom), top);
}

#[test]
fn multiplication_rounds_toward_zero() {
    assert_eq!(fx(1.5).saturating_mul(fx(2.0)), fx(3.0));
    assert_eq!(fx(-1.5).saturating_mul(fx(2.0)), fx(-3.0));
    assert_eq!(Fixed::from_micros(3).saturating_mul(fx(0.5)).micros, 1);
    assert_eq!(Fixed::from_micros(-3).saturating_mul(fx(0.5)).micros, -1);
    let top = Fixed::from_micros(i64::MAX);
    assert_eq!(top.saturating_mul(fx(2.0)), top);
    assert_eq!(top.saturating_mul(fx(-2.0)), Fixed::from_micros(i64::MIN));
}

#[test]
fn division_rounds_toward_zero() {
    assert_eq!(fx(80.0).saturating_div(fx(15.0)).micros, 5_333_333);
    assert_eq!(fx(-80.0).saturating_div(fx(15.0)).micros, -5_333_333);
    assert_eq!(fx(80.0).saturating_div(fx(-15.0)).micros, -5_333_333);
    assert_eq!(fx(-80.0).saturating_div(fx(-15.0)).micros, 5_333_333);
    assert_eq!(fx(165.0).saturating_div(fx(15.0)), fx(11.0));
    assert_eq!(fx(0.0).saturating_div(fx(-3.0)), fx(0.0));
}

#[test]
fn division_saturates() {
    let top = Fixed::from_micros(i64::MAX);
    let tiny = Fixed::from_micros(1);
    assert_eq!(top.saturating_div(tiny), top);
    assert_eq!(top.saturating_div(Fixed::from_micros(-1)), Fixed::from_micros(i64::MIN));
}

#[test]
fn whole_part_as_u32() {
    assert_eq!(fx(85.9).whole_u32(), 85);
    assert_eq!(fx(0.999999).whole_u32(), 0);
    assert_eq!(fx(-3.2).whole_u32(), 0);
    assert_eq!(fx(4294967295.5).whole_u32(), u32::MAX);
    assert_eq!(fx(5000000000.0).whole_u32(), u32::MAX);
}

#[test]
fn square_root_rounds_down() {
    assert_eq!(fx(4.0).sqrt(), fx(2.0));
    assert_eq!(fx(0.0).sqrt(), fx(0.0));
    assert_eq!(fx(2.0).sqrt().micros, 1_414_213);
    assert_eq!(fx(0.25).sqrt(), fx(0.5));
    assert_eq!(Fixed::from_micros(1).sqrt().micros, 1_000);
    let top = Fixed::from_micros(i64::MAX);
    let r = top.sqrt().micros as i128;
    let n = (i64::MAX as i128) * 1_000_000;
    assert!(r * r <= n && n < (r + 1) * (r + 1));
}

#[test]
fn mean_of_nothing_is_zero() {
    assert_eq!(mean_of(&Vec::new()), fx(0.0));
}

#[test]
fn mean_rounds_toward_zero() {
    assert_eq!(mean_of(&list(&[10.0, 20.0, 30.0])), fx(20.0));
    assert_eq!(mean_of(&vec![Fixed::from_micros(1), Fixed::from_micros(2)]).micros, 1);
    assert_eq!(mean_of(&vec![Fixed::from_micros(-1), Fixed::from_micros(-2)]).micros, -1);
    assert_eq!(mean_of(&list(&[-5.0, 5.0])), fx(0.0));
}

#[test]
fn mean_of_extremes_does_not_overflow() {
    let top = Fixed::from_micros(i64::MAX);
    let bottom = Fixed::from_micros(i64::MIN);
    assert_eq!(mean_of(&vec![top; 1000]), top);
    assert_eq!(mean_of(&vec![bottom; 1000]), bottom);
}

#[test]
fn sorted_copy_is_ascending_and_keeps_every_element() {
    let values = list(&[3.0, -1.0, 2.5, 3.0, 0.0, 100.0, -1.0]);
    let sorted = sorted_copy(&values);
    let mut expected = values.clone();
    expected.sort_by_key(|f| f.micros);
    assert_eq!(sorted, expected);
    assert_eq!(values, list(&[3.0, -1.0, 2.5, 3.0, 0.0, 100.0, -1.0]));
    assert_eq!(sorted_copy(&Vec::new()), Vec::new());
}
