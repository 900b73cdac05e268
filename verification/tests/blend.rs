use config_cam::blend::blend;
use config_cam::vec3::Vec3;

const UNIT: i64 = 1_000_000;

fn dist_sq(a: Vec3, b: Vec3) -> i128 {
    let dx = (a.x - b.x) as i128;
    let dy = (a.y - b.y) as i128;
    let dz = (a.z - b.z) as i128;
    dx * dx + dy * dy + dz * dz
}

#[test]
fn a_focus_on_the_edge_of_the_dead_zone_stays() {
    let actual = Vec3::new(0, 0, 0);
    assert_eq!(blend(actual, Vec3::new(200_000, 0, 0), 100_000), Some(actual));
    assert_eq!(blend(actual, Vec3::new(0, -200_000, 0), 4_000_000_000), Some(actual));
    assert_eq!(blend(actual, Vec3::new(115_470, 115_470, 115_470), 100_000), Some(actual));
    assert_eq!(blend(actual, Vec3::new(0, 0, 0), 100_000), Some(actual));
    let far = Vec3::new(i64::MAX, i64::MIN, 5);
    assert_eq!(blend(far, Vec3::new(i64::MAX - 120_000, i64::MIN + 160_000, 5), u32::MAX), Some(far));
}

#[test]
fn a_focus_just_outside_the_dead_zone_moves() {
    let actual = Vec3::new(0, 0, 0);
    assert_eq!(blend(actual, Vec3::new(200_001, 0, 0), 100_000), Some(Vec3::new(40_000, 0, 0)));
    assert_eq!(
        blend(actual, Vec3::new(115_471, 115_471, 115_471), 100_000),
        Some(Vec3::new(23_094, 23_094, 23_094))
    );
}

#[test]
fn the_step_is_the_difference_times_twice_the_frame_time() {
    let actual = Vec3::new(0, 0, 0);
    assert_eq!(blend(actual, Vec3::new(10 * UNIT, 0, 0), 100_000), Some(Vec3::new(2 * UNIT, 0, 0)));
    assert_eq!(
        blend(actual, Vec3::new(-10 * UNIT, 3 * UNIT, -UNIT), 16_667),
        Some(Vec3::new(-333_340, 100_002, -33_334))
    );
    assert_eq!(
        blend(Vec3::new(UNIT, UNIT, UNIT), Vec3::new(2 * UNIT, 0, UNIT), 250_000),
        Some(Vec3::new(1_500_000, 500_000, UNIT))
    );
}

#[test]
fn the_step_is_rounded_toward_zero() {
    let actual = Vec3::new(0, 0, 0);
    assert_eq!(blend(actual, Vec3::new(-200_001, 0, 0), 1), Some(actual));
    assert_eq!(blend(actual, Vec3::new(999_999, -999_999, 0), 500_001), Some(Vec3::new(1_000_000, -1_000_000, 0)));
    assert_eq!(blend(actual, Vec3::new(999_999, -999_999, 0), 499_999), Some(Vec3::new(999_997, -999_997, 0)));
}

#[test]
fn half_a_second_arrives_and_more_overshoots() {
    let actual = Vec3::new(UNIT, -UNIT, 0);
    let desired = Vec3::new(4 * UNIT, 2 * UNIT, 7);
    assert_eq!(blend(actual, desired, 500_000), Some(desired));
    assert_eq!(blend(actual, desired, 1_000_000), Some(Vec3::new(7 * UNIT, 5 * UNIT, 14)));
}

#[test]
fn a_frame_of_no_time_moves_nothing() {
    let actual = Vec3::new(UNIT, -UNIT, 0);
    assert_eq!(blend(actual, Vec3::new(40 * UNIT, 2 * UNIT, 7), 0), Some(actual));
}

#[test]
fn a_frame_too_short_to_round_to_a_step_moves_nothing() {
    let actual = Vec3::new(0, 0, 0);
    let desired = Vec3::new(115_471, 115_471, 115_471);
    assert_eq!(blend(actual, desired, 4), Some(actual));
    assert_eq!(blend(actual, desired, 5), Some(Vec3::new(1, 1, 1)));
}

#[test]
fn outside_the_dead_zone_the_focus_comes_strictly_closer() {
    let desired = Vec3::new(5 * UNIT, -3 * UNIT, 2 * UNIT);
    for dt in [5u32, 1_000, 16_667, 100_000, 499_999] {
        let mut actual = Vec3::new(-40 * UNIT, 17, 900 * UNIT);
        let mut frames = 0;
        while dist_sq(actual, desired) > 200_000i128 * 200_000 {
            let next = blend(actual, desired, dt).unwrap();
            assert!(dist_sq(next, desired) < dist_sq(actual, desired));
            assert!(actual.x <= next.x && next.x <= desired.x);
            assert!(actual.y >= next.y && next.y >= desired.y);
            assert!(actual.z >= next.z && next.z >= desired.z);
            actual = next;
            frames += 1;
            if frames == 2_000 {
                break;
            }
        }
        assert_eq!(blend(actual, desired, dt).is_some(), true);
    }
}

#[test]
fn inside_the_dead_zone_nothing_moves_for_any_frame_time() {
    let desired = Vec3::new(5 * UNIT, -3 * UNIT, 2 * UNIT);
    let actual = Vec3::new(5 * UNIT - 100_000, -3 * UNIT + 100_000, 2 * UNIT + 100_000);
    for dt in [0u32, 1, 16_667, 1_000_000, u32::MAX] {
        assert_eq!(blend(actual, desired, dt), Some(actual));
    }
}

#[test]
fn a_focus_carried_out_of_range_is_refused() {
    let actual = Vec3::new(i64::MIN, 0, 0);
    let desired = Vec3::new(i64::MAX, 0, 0);
    assert_eq!(blend(actual, desired, 500_000), Some(desired));
    assert_eq!(blend(actual, desired, 500_001), None);
    assert_eq!(blend(actual, desired, u32::MAX), None);
    assert_eq!(blend(Vec3::new(0, 0, i64::MAX - 1), Vec3::new(0, 0, -UNIT), u32::MAX), None);
}
