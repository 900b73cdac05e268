use config_cam::error::CameraError;
use config_cam::scroll::{scroll, switch_scroll_type, ScrollTarget};
use config_cam::settings::{KeyMap, MovementSettings, PlayerSettings};

const UNIT: i64 = 1_000_000;
const FOV: u32 = 785_398;

fn settings() -> (MovementSettings, PlayerSettings) {
    let map = KeyMap { next_cam: &[12], next_scroll: &[14, 15], toggle_grab: &[36] };
    (MovementSettings::new(120, 12 * UNIT, 500_000, 10 * UNIT, map), PlayerSettings { cam_fwd: false })
}

fn dials(s: &MovementSettings, p: &PlayerSettings) -> (i64, u32, u32, bool) {
    (s.speed, s.sensitivity, s.lerp, p.cam_fwd)
}

#[test]
fn the_scroll_selector_steps_round_its_five_targets() {
    let order = [
        ScrollTarget::MovementSpeed,
        ScrollTarget::Zoom,
        ScrollTarget::Sensitivity,
        ScrollTarget::Lerp,
        ScrollTarget::CamForwardToggle,
    ];
    for (i, target) in order.iter().enumerate() {
        assert_eq!(target.index(), i);
        assert_eq!(ScrollTarget::from_index(i), Some(*target));
        assert_eq!(target.next(), order[(i + 1) % 5]);
        let mut t = *target;
        for _ in 0..5 {
            t = t.next();
        }
        assert_eq!(t, *target);
    }
    assert_eq!(ScrollTarget::from_index(5), None);
    assert_eq!(ScrollTarget::from_index(usize::MAX), None);
}

#[test]
fn the_scroll_selector_is_keyed_by_its_own_keys() {
    let (s, _) = settings();
    let mut target = ScrollTarget::MovementSpeed;
    assert_eq!(switch_scroll_type(&s.map, &[12, 36], &mut target), None);
    assert_eq!(target, ScrollTarget::MovementSpeed);
    assert_eq!(switch_scroll_type(&s.map, &[], &mut target), None);
    assert_eq!(switch_scroll_type(&s.map, &[14], &mut target), Some(ScrollTarget::Zoom));
    assert_eq!(target, ScrollTarget::Zoom);
    assert_eq!(switch_scroll_type(&s.map, &[3, 15, 14], &mut target), Some(ScrollTarget::Sensitivity));
    assert_eq!(target, ScrollTarget::Sensitivity);
}

#[test]
fn the_wheel_moves_the_speed_by_tenths() {
    let (mut s, mut p) = settings();
    assert_eq!(scroll(&mut s, &mut p, ScrollTarget::MovementSpeed, FOV, &[UNIT]), Ok(FOV));
    assert_eq!(dials(&s, &p), (12_100_000, 120, 500_000, false));
    assert_eq!(scroll(&mut s, &mut p, ScrollTarget::MovementSpeed, FOV, &[-UNIT, -UNIT, -UNIT]), Ok(FOV));
    assert_eq!(dials(&s, &p), (11_800_000, 120, 500_000, false));
    assert_eq!(scroll(&mut s, &mut p, ScrollTarget::MovementSpeed, FOV, &[9, -9]), Ok(FOV));
    assert_eq!(s.speed, 11_800_000);
    assert_eq!(scroll(&mut s, &mut p, ScrollTarget::MovementSpeed, FOV, &[19, -11]), Ok(FOV));
    assert_eq!(s.speed, 11_800_000);
}

#[test]
fn a_dial_turned_below_zero_comes_back_up() {
    let (mut s, mut p) = settings();
    assert_eq!(scroll(&mut s, &mut p, ScrollTarget::MovementSpeed, FOV, &[-200 * UNIT]), Ok(FOV));
    assert_eq!(s.speed, 8 * UNIT);
    assert_eq!(scroll(&mut s, &mut p, ScrollTarget::Sensitivity, FOV, &[-200 * UNIT]), Ok(FOV));
    assert_eq!(s.sensitivity, 80);
    assert_eq!(scroll(&mut s, &mut p, ScrollTarget::Lerp, FOV, &[-70 * UNIT]), Ok(FOV));
    assert_eq!(s.lerp, 200_000);
    assert_eq!(scroll(&mut s, &mut p, ScrollTarget::Zoom, FOV, &[100 * UNIT]), Ok(214_602));
    s.speed = -5;
    assert_eq!(scroll(&mut s, &mut p, ScrollTarget::MovementSpeed, FOV, &[0]), Ok(FOV));
    assert_eq!(s.speed, 5);
}

#[test]
fn the_wheel_moves_the_sensitivity_by_millionths() {
    let (mut s, mut p) = settings();
    assert_eq!(scroll(&mut s, &mut p, ScrollTarget::Sensitivity, FOV, &[UNIT, UNIT, 3 * UNIT]), Ok(FOV));
    assert_eq!(dials(&s, &p), (12 * UNIT, 125, 500_000, false));
    assert_eq!(scroll(&mut s, &mut p, ScrollTarget::Sensitivity, FOV, &[-UNIT, 999_999, -999_999]), Ok(FOV));
    assert_eq!(s.sensitivity, 124);
}

#[test]
fn the_wheel_zooms_against_its_travel() {
    let (mut s, mut p) = settings();
    assert_eq!(scroll(&mut s, &mut p, ScrollTarget::Zoom, FOV, &[UNIT]), Ok(775_398));
    assert_eq!(scroll(&mut s, &mut p, ScrollTarget::Zoom, FOV, &[-UNIT]), Ok(795_398));
    assert_eq!(scroll(&mut s, &mut p, ScrollTarget::Zoom, FOV, &[UNIT, UNIT, -5 * UNIT]), Ok(815_398));
    assert_eq!(scroll(&mut s, &mut p, ScrollTarget::Zoom, FOV, &[]), Ok(FOV));
    assert_eq!(dials(&s, &p), (12 * UNIT, 120, 500_000, false));
}

#[test]
fn the_wheel_moves_the_lerp_factor_by_hundredths() {
    let (mut s, mut p) = settings();
    assert_eq!(scroll(&mut s, &mut p, ScrollTarget::Lerp, FOV, &[UNIT]), Ok(FOV));
    assert_eq!(dials(&s, &p), (12 * UNIT, 120, 510_000, false));
    assert_eq!(scroll(&mut s, &mut p, ScrollTarget::Lerp, FOV, &[99, -199]), Ok(FOV));
    assert_eq!(s.lerp, 509_999);
    assert_eq!(scroll(&mut s, &mut p, ScrollTarget::Lerp, FOV, &[60 * UNIT]), Ok(FOV));
    assert_eq!(s.lerp, 1_109_999);
}

#[test]
fn the_wheel_flips_the_forward_lock_above_a_hundredth() {
    let (mut s, mut p) = settings();
    assert_eq!(scroll(&mut s, &mut p, ScrollTarget::CamForwardToggle, FOV, &[10_000]), Ok(FOV));
    assert!(!p.cam_fwd);
    assert_eq!(scroll(&mut s, &mut p, ScrollTarget::CamForwardToggle, FOV, &[10_001]), Ok(FOV));
    assert!(p.cam_fwd);
    assert_eq!(scroll(&mut s, &mut p, ScrollTarget::CamForwardToggle, FOV, &[-UNIT, 0, -10_001]), Ok(FOV));
    assert!(p.cam_fwd);
    assert_eq!(scroll(&mut s, &mut p, ScrollTarget::CamForwardToggle, FOV, &[UNIT, UNIT]), Ok(FOV));
    assert!(p.cam_fwd);
    assert_eq!(scroll(&mut s, &mut p, ScrollTarget::CamForwardToggle, FOV, &[UNIT, -UNIT, UNIT, i64::MAX]), Ok(FOV));
    assert!(!p.cam_fwd);
    assert_eq!(dials(&s, &p), (12 * UNIT, 120, 500_000, false));
}

#[test]
fn the_wheel_leaves_the_flags_and_the_rest_alone() {
    let (mut s, mut p) = settings();
    s.disable_look = true;
    s.locked_to_player_previous = true;
    scroll(&mut s, &mut p, ScrollTarget::Lerp, FOV, &[UNIT]).unwrap();
    assert!(s.disable_look);
    assert!(!s.disable_move);
    assert!(!s.locked_to_player);
    assert!(s.locked_to_player_previous);
    assert_eq!(s.dist, 10 * UNIT);
    assert_eq!(s.map.next_scroll, &[14, 15]);
}

#[test]
fn a_dial_out_of_range_is_refused_and_nothing_changes() {
    let (mut s, mut p) = settings();
    s.speed = i64::MAX;
    assert_eq!(scroll(&mut s, &mut p, ScrollTarget::MovementSpeed, FOV, &[9]), Ok(FOV));
    assert_eq!(scroll(&mut s, &mut p, ScrollTarget::MovementSpeed, FOV, &[10]), Err(CameraError::OutOfRange));
    assert_eq!(scroll(&mut s, &mut p, ScrollTarget::MovementSpeed, FOV, &[-10, 20]), Err(CameraError::OutOfRange));
    assert_eq!(scroll(&mut s, &mut p, ScrollTarget::MovementSpeed, FOV, &[10, -10]), Err(CameraError::OutOfRange));
    assert_eq!(s.speed, i64::MAX);
    s.speed = i64::MIN;
    assert_eq!(scroll(&mut s, &mut p, ScrollTarget::MovementSpeed, FOV, &[0]), Err(CameraError::OutOfRange));
    assert_eq!(s.speed, i64::MIN);
    assert_eq!(scroll(&mut s, &mut p, ScrollTarget::MovementSpeed, FOV, &[10]), Ok(FOV));
    assert_eq!(s.speed, i64::MAX);

    let (mut s, mut p) = settings();
    s.sensitivity = u32::MAX;
    assert_eq!(scroll(&mut s, &mut p, ScrollTarget::Sensitivity, FOV, &[-UNIT, 2 * UNIT]), Err(CameraError::OutOfRange));
    assert_eq!(s.sensitivity, u32::MAX);
    s.lerp = u32::MAX - 1;
    assert_eq!(scroll(&mut s, &mut p, ScrollTarget::Lerp, FOV, &[100, 100]), Err(CameraError::OutOfRange));
    assert_eq!(s.lerp, u32::MAX - 1);
    assert_eq!(scroll(&mut s, &mut p, ScrollTarget::Lerp, FOV, &[100]), Ok(FOV));
    assert_eq!(s.lerp, u32::MAX);
    assert_eq!(scroll(&mut s, &mut p, ScrollTarget::Zoom, u32::MAX, &[-100]), Err(CameraError::OutOfRange));
    assert_eq!(scroll(&mut s, &mut p, ScrollTarget::Zoom, 5, &[i64::MIN]), Err(CameraError::OutOfRange));
    assert_eq!(scroll(&mut s, &mut p, ScrollTarget::Zoom, 5, &[i64::MAX]), Err(CameraError::OutOfRange));
    assert_eq!(scroll(&mut s, &mut p, ScrollTarget::Zoom, 5, &[429_496_730_000]), Ok(4_294_967_295));
}
