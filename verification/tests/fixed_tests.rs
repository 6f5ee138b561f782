use osrs_scene::fixed::{
    clamp_i64, clamped_add, isqrt_u64, round_milli_to_unit, scale_milli, vec3_in_range, Vec3Milli,
};

#[test]
fn clamp_picks_the_nearest_bound() {
    assert_eq!(clamp_i64(7, 2, 50), 7);
    assert_eq!(clamp_i64(-3, 2, 50), 2);
    assert_eq!(clamp_i64(99, 2, 50), 50);
    assert_eq!(clamp_i64(2, 2, 50), 2);
    assert_eq!(clamp_i64(50, 2, 50), 50);
}

#[test]
fn clamped_add_saturates_instead_of_overflowing() {
    assert_eq!(clamped_add(i64::MAX, i64::MAX, -10, 10), 10);
    assert_eq!(clamped_add(i64::MIN, i64::MIN, -10, 10), -10);
    assert_eq!(clamped_add(4, 3, -10, 10), 7);
}

#[test]
fn scale_milli_truncates_toward_zero() {
    // 0.2 degrees per pixel: 7 pixels give 1.4 degrees
    assert_eq!(scale_milli(7_000, 200), 1_400);
    assert_eq!(scale_milli(-7_000, 200), -1_400);
    // 1.5 millidegrees truncates to 1, and -1.5 to -1
    assert_eq!(scale_milli(15, 100), 1);
    assert_eq!(scale_milli(-15, 100), -1);
    assert_eq!(scale_milli(0, 500), 0);
}

#[test]
fn rounding_halves_go_away_from_zero() {
    assert_eq!(round_milli_to_unit(1_499), 1);
    assert_eq!(round_milli_to_unit(1_500), 2);
    assert_eq!(round_milli_to_unit(-1_499), -1);
    assert_eq!(round_milli_to_unit(-1_500), -2);
    assert_eq!(round_milli_to_unit(0), 0);
}

#[test]
fn isqrt_brackets_its_argument() {
    assert_eq!(isqrt_u64(0), 0);
    assert_eq!(isqrt_u64(1), 1);
    assert_eq!(isqrt_u64(3), 1);
    assert_eq!(isqrt_u64(4), 2);
    assert_eq!(isqrt_u64(10_000), 100);
    assert_eq!(isqrt_u64(10_001), 100);
    assert_eq!(isqrt_u64(9_999), 99);
}

#[test]
fn range_check_matches_the_coordinate_limit() {
    let limit = 0x2000_0000;
    assert!(vec3_in_range(&Vec3Milli { x: limit, y: -limit, z: 0 }));
    assert!(!vec3_in_range(&Vec3Milli { x: limit + 1, y: 0, z: 0 }));
    assert!(!vec3_in_range(&Vec3Milli { x: 0, y: 0, z: -limit - 1 }));
}
