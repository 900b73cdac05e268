use config_cam::error::CameraError;
use config_cam::look::{player_look, InputState, LookAngles, LookOutcome, MouseMotion, WindowView};
use config_cam::settings::{KeyMap, MovementSettings};

fn settings(sensitivity: u32) -> MovementSettings {
    let map = KeyMap { next_cam: &[12], next_scroll: &[14], toggle_grab: &[36] };
    MovementSettings::new(sensitivity, 12_000_000, 500_000, 10_000_000, map)
}

const GRABBED: WindowView = WindowView { width: 1_000, height: 800, cursor_locked: true };
const LOOSE: WindowView = WindowView { width: 1_000, height: 800, cursor_locked: false };

#[test]
fn a_grabbed_cursor_turns_the_view() {
    let s = settings(120);
    let mut state = InputState::new();
    let r = player_look(&s, &GRABBED, &mut state, &[MouseMotion { dx: 10, dy: -5 }]);
    assert_eq!(
        r,
        Ok(LookOutcome { rotation: Some(LookAngles { yaw: -20_943, pitch: 8_377 }), consumed: 1 })
    );
    assert_eq!((state.yaw(), state.pitch()), (-20_943, 8_377));

    let r = player_look(
        &s,
        &GRABBED,
        &mut state,
        &[MouseMotion { dx: -10, dy: 5 }, MouseMotion { dx: 1, dy: 1 }, MouseMotion { dx: 0, dy: 0 }],
    );
    assert_eq!(
        r,
        Ok(LookOutcome { rotation: Some(LookAngles { yaw: -2_094, pitch: -1_675 }), consumed: 3 })
    );
    assert_eq!((state.yaw(), state.pitch()), (-2_094, -1_675));
}

#[test]
fn a_loose_cursor_is_drained_without_turning() {
    let s = settings(120);
    let mut state = InputState::new();
    player_look(&s, &GRABBED, &mut state, &[MouseMotion { dx: 10, dy: -5 }]).unwrap();
    let r = player_look(
        &s,
        &LOOSE,
        &mut state,
        &[MouseMotion { dx: 500, dy: 500 }, MouseMotion { dx: -3, dy: 9_000 }],
    );
    assert_eq!(
        r,
        Ok(LookOutcome { rotation: Some(LookAngles { yaw: -20_943, pitch: 8_377 }), consumed: 2 })
    );
    assert_eq!((state.yaw(), state.pitch()), (-20_943, 8_377));
}

#[test]
fn a_disabled_look_takes_no_report() {
    let mut s = settings(120);
    s.disable_look = true;
    let mut state = InputState::new();
    let r = player_look(&s, &GRABBED, &mut state, &[MouseMotion { dx: 10, dy: -5 }]);
    assert_eq!(r, Ok(LookOutcome { rotation: None, consumed: 0 }));
    assert_eq!((state.yaw(), state.pitch()), (0, 0));
}

#[test]
fn a_frame_without_reports_gives_no_rotation() {
    let s = settings(120);
    let mut state = InputState::default();
    assert_eq!(player_look(&s, &GRABBED, &mut state, &[]), Ok(LookOutcome { rotation: None, consumed: 0 }));
    assert_eq!((state.yaw(), state.pitch()), (0, 0));
}

#[test]
fn the_pitch_stays_within_its_limit_under_a_flood_of_reports() {
    let s = settings(120);
    let window = WindowView { width: 1_920, height: 1_080, cursor_locked: true };
    let mut state = InputState::new();
    let down: Vec<MouseMotion> = (0..10_000).map(|_| MouseMotion { dx: 3, dy: 100_000 }).collect();
    let r = player_look(&s, &window, &mut state, &down).unwrap();
    assert_eq!(r.consumed, 10_000);
    assert_eq!(state.pitch(), -1_540_000);
    assert_eq!(r.rotation.unwrap().pitch, -1_540_000);
    assert_eq!(state.yaw(), -120_630_000);

    let up: Vec<MouseMotion> = (0..10_000).map(|_| MouseMotion { dx: 0, dy: i32::MIN }).collect();
    player_look(&s, &window, &mut state, &up).unwrap();
    assert_eq!(state.pitch(), 1_540_000);

    let mut state = InputState::new();
    for i in 0..10_000i32 {
        let dy = if i % 3 == 0 { i32::MAX } else { -(i * 7_919 % 1_000_003) };
        player_look(&s, &window, &mut state, &[MouseMotion { dx: 0, dy }]).unwrap();
        assert!(-1_540_000 <= state.pitch() && state.pitch() <= 1_540_000);
    }
}

#[test]
fn the_pitch_is_clamped_after_every_report() {
    let s = settings(120);
    let window = WindowView { width: 1_920, height: 1_080, cursor_locked: true };
    let mut state = InputState::new();
    let r = player_look(
        &s,
        &window,
        &mut state,
        &[MouseMotion { dx: 0, dy: -100_000 }, MouseMotion { dx: 0, dy: 100 }],
    )
    .unwrap();
    assert_eq!(r.rotation.unwrap().pitch, 1_540_000 - 226_194);
    assert_eq!(state.pitch(), 1_313_806);
}

#[test]
fn a_yaw_out_of_range_is_refused_and_nothing_changes() {
    let s = settings(u32::MAX);
    let window = WindowView { width: u32::MAX, height: u32::MAX, cursor_locked: true };
    let mut state = InputState::new();
    let r = player_look(
        &s,
        &window,
        &mut state,
        &[MouseMotion { dx: 0, dy: 40 }, MouseMotion { dx: i32::MIN, dy: i32::MAX }],
    );
    assert_eq!(r, Err(CameraError::OutOfRange));
    assert_eq!((state.yaw(), state.pitch()), (0, 0));
    let r = player_look(&s, &window, &mut state, &[MouseMotion { dx: 0, dy: i32::MIN }]);
    assert_eq!(
        r,
        Ok(LookOutcome { rotation: Some(LookAngles { yaw: 0, pitch: 1_540_000 }), consumed: 1 })
    );
}
