use slint_shader::time::saturating_nanos;

#[test]
fn nanoseconds_that_fit_are_kept() {
    assert_eq!(saturating_nanos(0), 0);
    assert_eq!(saturating_nanos(1), 1);
    assert_eq!(saturating_nanos(16_666_667), 16_666_667);
    assert_eq!(saturating_nanos(u64::MAX as u128 - 1), u64::MAX - 1);
    assert_eq!(saturating_nanos(u64::MAX as u128), u64::MAX);
}

#[test]
fn nanoseconds_that_do_not_fit_saturate() {
    assert_eq!(saturating_nanos(u64::MAX as u128 + 1), u64::MAX);
    assert_eq!(saturating_nanos(1u128 << 64), u64::MAX);
    assert_eq!(saturating_nanos(u128::MAX), u64::MAX);
}
