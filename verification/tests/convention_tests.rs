use imu_fusion::convention::FusionConvention;

#[test]
fn only_north_east_down_points_its_third_axis_down() {
    assert!(FusionConvention::NWU.is_z_up());
    assert!(FusionConvention::ENU.is_z_up());
    assert!(!FusionConvention::NED.is_z_up());
}

#[test]
fn conventions_compare_by_variant() {
    assert_eq!(FusionConvention::NWU, FusionConvention::NWU);
    assert_ne!(FusionConvention::NWU, FusionConvention::ENU);
    assert_ne!(FusionConvention::ENU, FusionConvention::NED);
}
