use traj::capacity::{required_for_rate, CapacityError, CapacityRequest};

#[test]
fn maximum_profile_fits_compiled_capacities() {
    let required = CapacityRequest {
        imu_rate_hz: 1_750,
        position_rate_hz: 50,
        velocity_rate_hz: 50,
        navigation_rate_hz: 400,
        fusion_and_guard_ns: 500_000_000,
        transition_reserve: 16,
    }
    .preflight()
    .unwrap();
    assert_eq!(required.imu, 877);
    assert_eq!(required.measurements, 66);
    assert_eq!(required.dense_segments, 208);
}

#[test]
fn rate_or_horizon_cannot_expand_at_runtime() {
    let too_fast = CapacityRequest {
        imu_rate_hz: 1_751,
        position_rate_hz: 50,
        velocity_rate_hz: 50,
        navigation_rate_hz: 400,
        fusion_and_guard_ns: 500_000_000,
        transition_reserve: 16,
    };
    assert_eq!(too_fast.preflight(), Err(CapacityError::OutsideProfile));
}

#[test]
fn horizon_and_reserves_are_part_of_the_requirement() {
    assert_eq!(required_for_rate(400, 500_000_000, 8), Ok(208));
    assert_eq!(required_for_rate(1, 1, 0), Ok(1));
    assert_eq!(required_for_rate(0, u64::MAX, 3), Ok(3));
    assert_eq!(required_for_rate(2, u64::MAX, 0), Err(CapacityError::ArithmeticOverflow));
    assert_eq!(required_for_rate(1, 1_000_000_000, usize::MAX), Err(CapacityError::ArithmeticOverflow));
}
