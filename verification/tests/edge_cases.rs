/// The rounding primitive the conversion code depends on rounds .5 up, not
/// to-even. If this ever changes, fraction snapping is wrong.
#[test]
fn round_half_up_primitive_assumption() {
    assert_eq!(2.5_f64.round() as i32, 3);
    assert_eq!(3.5_f64.round() as i32, 4); // to-even would give 4 here (coincidence)
    assert_eq!(0.5_f64.round() as i32, 1);
    assert_eq!(2.4_f64.round() as i32, 2);
    assert_eq!(2.6_f64.round() as i32, 3);
}
