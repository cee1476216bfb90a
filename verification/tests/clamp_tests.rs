use imu_fusion::bounds::clamp;

#[test]
fn clamp_leaves_a_value_between_the_bounds() {
    assert_eq!(clamp(3, 0, 10), 3);
    assert_eq!(clamp(0, 0, 10), 0);
    assert_eq!(clamp(10, 0, 10), 10);
}

#[test]
fn clamp_raises_to_the_lower_bound() {
    assert_eq!(clamp(-9, 0, 500), 0);
    assert_eq!(clamp(i32::MIN, -5, 5), -5);
}

#[test]
fn clamp_lowers_to_the_upper_bound() {
    assert_eq!(clamp(501, 0, 500), 500);
    assert_eq!(clamp(i64::MAX, -5, 5), 5);
}

#[test]
fn clamp_with_equal_bounds_is_constant() {
    assert_eq!(clamp(-1, 0, 0), 0);
    assert_eq!(clamp(0, 0, 0), 0);
    assert_eq!(clamp(1, 0, 0), 0);
}

#[test]
fn clamp_with_reversed_bounds_tests_the_lower_bound_first() {
    assert_eq!(clamp(-7, 0, -3), 0);
    assert_eq!(clamp(5, 0, -3), -3);
    assert_eq!(clamp(0, 0, -3), -3);
    assert_eq!(clamp(-2, 0, -3), 0);
}

#[test]
fn clamp_is_idempotent_with_ordered_bounds() {
    for value in -20i32..20 {
        let once = clamp(value, -4, 7);
        assert_eq!(clamp(once, -4, 7), once);
        assert!(-4 <= once && once <= 7);
    }
}

#[test]
fn clamp_orders_other_types() {
    assert_eq!(clamp("m", "b", "k"), "k");
    assert_eq!(clamp((1u8, 9u8), (1, 2), (1, 5)), (1, 5));
    assert_eq!(clamp('a', 'c', 'x'), 'c');
}
