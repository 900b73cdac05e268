use config_cam::authority::{CameraRole, Handoff};
use config_cam::config::{Config, Placement};
use config_cam::error::CameraError;
use config_cam::frame::{tick, CameraContext, FrameInput};
use config_cam::look::{InputState, LookAngles, LookOutcome, MouseMotion, WindowView};
use config_cam::mode::CameraMode;
use config_cam::motion::CameraMotion;
use config_cam::scroll::ScrollTarget;
use config_cam::settings::{KeyMap, MovementSettings, PlayerSettings};
use config_cam::vec3::Vec3;

const UNIT: i64 = 1_000_000;
const MAP: KeyMap = KeyMap { next_cam: &[12], next_scroll: &[14], toggle_grab: &[36] };
const GRABBED: WindowView = WindowView { width: 1_000, height: 800, cursor_locked: true };

fn units(x: i64, y: i64, z: i64) -> Vec3 {
    Vec3::new(x * UNIT, y * UNIT, z * UNIT)
}

fn context(modes: &'static [CameraMode]) -> CameraContext {
    let start = Placement { eye: units(-2, 5, 5), looking_at: units(0, 0, 0) };
    CameraContext {
        config: Config::new(modes, 120, 12 * UNIT, start).unwrap(),
        settings: MovementSettings::new(120, 12 * UNIT, 500_000, 10 * UNIT, MAP),
        player_settings: PlayerSettings { cam_fwd: false },
        scroll_type: ScrollTarget::Sensitivity,
        input_state: InputState::new(),
    }
}

fn quiet<'a>() -> FrameInput<'a> {
    FrameInput {
        dt: 100_000,
        just_pressed: &[],
        wheel: &[],
        motion: &[],
        player: Some(units(1, 2, 3)),
        secondary: None,
        window: GRABBED,
        fov: 785_398,
    }
}

#[test]
fn a_quiet_frame_only_follows_the_focus() {
    let mut ctx = context(&[CameraMode::LookAt, CameraMode::Free]);
    let out = tick(&mut ctx, &quiet());
    assert_eq!(out.selected_mode, None);
    assert_eq!(out.selected_scroll, None);
    assert!(!out.toggle_grab);
    assert_eq!(out.fov, Ok(785_398));
    assert_eq!(out.camera, Ok(CameraMotion::LookAt(Vec3::new(200_000, 400_000, 600_000))));
    assert_eq!(out.handoff, None);
    assert_eq!(out.look, Ok(LookOutcome { rotation: None, consumed: 0 }));
    assert_eq!(ctx.config.camera_settings.camera_should_focus, units(1, 2, 3));
    assert_eq!(ctx.config.camera_settings.camera_is_focus, Vec3::new(200_000, 400_000, 600_000));
    assert_eq!(ctx.scroll_type, ScrollTarget::Sensitivity);
    assert_eq!(ctx.settings.sensitivity, 120);
}

#[test]
fn the_mode_selected_this_frame_decides_the_rest_of_the_frame() {
    let mut ctx = context(&[CameraMode::LookAt, CameraMode::FollowBehind, CameraMode::Free]);
    let reports = [MouseMotion { dx: 10, dy: -5 }];
    let input = FrameInput { just_pressed: &[12], motion: &reports, ..quiet() };
    let out = tick(&mut ctx, &input);
    assert_eq!(out.selected_mode, Some(CameraMode::FollowBehind));
    assert_eq!(out.handoff, Some(Handoff { release: CameraRole::Static, claim: CameraRole::Attached }));
    assert_eq!(out.look, Ok(LookOutcome { rotation: None, consumed: 0 }));
    match out.camera {
        Ok(CameraMotion::Rigid(pose)) => assert_eq!(pose.translation, units(1, 3, 7)),
        other => panic!("not pinned: {:?}", other),
    }
    assert!(ctx.settings.locked_to_player && ctx.settings.locked_to_player_previous);

    let out = tick(&mut ctx, &FrameInput { motion: &reports, ..quiet() });
    assert_eq!(out.selected_mode, None);
    assert_eq!(out.handoff, None);

    let out = tick(&mut ctx, &input);
    assert_eq!(out.selected_mode, Some(CameraMode::Free));
    assert_eq!(out.camera, Ok(CameraMotion::Hold));
    assert_eq!(out.handoff, Some(Handoff { release: CameraRole::Attached, claim: CameraRole::Static }));
    assert_eq!(
        out.look,
        Ok(LookOutcome { rotation: Some(LookAngles { yaw: -20_943, pitch: 8_377 }), consumed: 1 })
    );
    assert!(!ctx.settings.locked_to_player && !ctx.settings.locked_to_player_previous);
    assert_eq!((ctx.input_state.yaw(), ctx.input_state.pitch()), (-20_943, 8_377));
}

#[test]
fn the_wheel_turns_the_dial_selected_this_frame_before_the_focus_is_resolved() {
    let mut ctx = context(&[CameraMode::LookAt]);
    ctx.scroll_type = ScrollTarget::Sensitivity;
    let input = FrameInput {
        just_pressed: &[14, 36],
        wheel: &[50 * UNIT],
        player: Some(units(0, 0, 0)),
        secondary: Some(units(10, 0, 0)),
        ..quiet()
    };
    let out = tick(&mut ctx, &input);
    assert_eq!(out.selected_scroll, Some(ScrollTarget::Lerp));
    assert!(out.toggle_grab);
    assert_eq!(out.selected_mode, None);
    assert_eq!(out.fov, Ok(785_398));
    assert_eq!(ctx.settings.lerp, 1_000_000);
    assert_eq!(ctx.settings.sensitivity, 120);
    assert_eq!(ctx.config.camera_settings.camera_should_focus, units(10, 0, 0));
    assert_eq!(out.camera, Ok(CameraMotion::LookAt(units(2, 0, 0))));
}

#[test]
fn a_stage_that_fails_leaves_the_others_to_run() {
    let mut ctx = context(&[CameraMode::Fps, CameraMode::Free]);
    ctx.scroll_type = ScrollTarget::Zoom;
    let reports = [MouseMotion { dx: 0, dy: 40 }];
    let input = FrameInput {
        wheel: &[i64::MIN],
        motion: &reports,
        player: Some(Vec3::new(0, i64::MAX, 0)),
        ..quiet()
    };
    let out = tick(&mut ctx, &input);
    assert_eq!(out.fov, Err(CameraError::OutOfRange));
    assert_eq!(out.camera, Err(CameraError::OutOfRange));
    assert_eq!(out.handoff, None);
    assert_eq!(
        out.look,
        Ok(LookOutcome { rotation: Some(LookAngles { yaw: 0, pitch: -67_020 }), consumed: 1 })
    );
    assert_eq!(ctx.config.camera_settings.camera_should_focus, units(0, 0, 0));
    assert!(!ctx.settings.disable_move);

    let mut ctx = context(&[CameraMode::Free]);
    ctx.settings.sensitivity = u32::MAX;
    let wide = WindowView { width: u32::MAX, height: 1, cursor_locked: true };
    let reports = [MouseMotion { dx: i32::MAX, dy: 0 }];
    let out = tick(&mut ctx, &FrameInput { motion: &reports, window: wide, ..quiet() });
    assert_eq!(out.look, Err(CameraError::OutOfRange));
    assert_eq!(out.camera, Ok(CameraMotion::Hold));
    assert_eq!((ctx.input_state.yaw(), ctx.input_state.pitch()), (0, 0));
}
