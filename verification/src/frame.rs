//! One whole frame of the camera rig, stage by stage and in the one order in
//! which every stage sees what the stages before it decided: the selectors
//! step, the wheel turns its dial, the focus is resolved and followed,
//! authority changes hands, and last the mouse turns the view.
use vstd::prelude::*;
use crate::authority::{toggle_camera_parent, Handoff};
use crate::config::Config;
use crate::error::CameraError;
use crate::input::{any_pressed, cycle_cam_state};
use crate::look::{looks, player_look, InputState, LookOutcome, MouseMotion, WindowView};
use crate::mode::CameraMode;
use crate::motion::{move_camera, CameraMotion};
use crate::scroll::{dials_of, scroll, switch_scroll_type, ScrollTarget};
use crate::settings::{MovementSettings, PlayerSettings};
use crate::vec3::Vec3;

verus! {

/// Everything the camera rig keeps from frame to frame, owned by the host's
/// update loop.
#[derive(Clone, Copy, Debug)]
pub struct CameraContext {
    /// The enabled modes, the selected one and the camera's foci.
    pub config: Config,
    /// The tunables and the flags of the selected mode.
    pub settings: MovementSettings,
    /// The player's settings that the wheel reaches.
    pub player_settings: PlayerSettings,
    /// The tunable that the wheel adjusts.
    pub scroll_type: ScrollTarget,
    /// The look controller's yaw and pitch.
    pub input_state: InputState,
}

/// What the host read from the scene, the window and the input devices for
/// one frame.
#[derive(Clone, Copy, Debug)]
pub struct FrameInput<'a> {
    /// The time the frame took, in millionths of a second.
    pub dt: u32,
    /// The keys that went down this frame.
    pub just_pressed: &'a [u32],
    /// The wheel's travels since the last frame, in millionths.
    pub wheel: &'a [i64],
    /// The reports of mouse travel since the last frame.
    pub motion: &'a [MouseMotion],
    /// Where the player is, if the scene has it.
    pub player: Option<Vec3>,
    /// Where the second target is, if the scene has it.
    pub secondary: Option<Vec3>,
    /// The window's extent and whether the cursor is grabbed.
    pub window: WindowView,
    /// The camera's field of view, in millionths of a radian.
    pub fov: u32,
}

/// What the host has to carry out after one frame.
#[derive(Clone, Copy, Debug, PartialEq, Eq)]
pub struct FrameOutput {
    /// The camera mode that was newly selected, if the selector stepped.
    pub selected_mode: Option<CameraMode>,
    /// The scroll target that was newly selected, if the selector stepped.
    pub selected_scroll: Option<ScrollTarget>,
    /// Whether the cursor's grab is to be toggled.
    pub toggle_grab: bool,
    /// The camera's new field of view.
    pub fov: Result<u32, CameraError>,
    /// What to do with the rendering camera.
    pub camera: Result<CameraMotion, CameraError>,
    /// The change of authority to carry out, if there is one.
    pub handoff: Option<Handoff>,
    /// What the look controller took and the rotation it gives.
    pub look: Result<LookOutcome, CameraError>,
}

impl CameraContext {
    /// The selected mode is one of the enabled modes.
    pub open spec fn wf(&self) -> bool {
        self.config.wf()
    }

    /// The context after the selectors stepped on this frame's keys.
    pub open spec fn keyed(self, pressed: Seq<u32>) -> CameraContext {
        let actions = self.settings.map.actions(pressed);
        CameraContext {
            config: if actions.next_cam {
                self.config.after_actions(1)
            } else {
                self.config
            },
            scroll_type: if actions.next_scroll {
                self.scroll_type.next_spec()
            } else {
                self.scroll_type
            },
            ..self
        }
    }

    /// The context after the wheel turned the selected dial; unchanged where
    /// a dial would leave its range.
    pub open spec fn scrolled(self, fov: u32, wheel: Seq<i64>) -> CameraContext {
        let start = dials_of(self.settings, self.player_settings, fov);
        if start.all_fit(self.scroll_type, wheel) {
            let end = start.turned_all(self.scroll_type, wheel);
            CameraContext {
                settings: MovementSettings {
                    speed: end.speed as i64,
                    sensitivity: end.sensitivity as u32,
                    lerp: end.lerp as u32,
                    ..self.settings
                },
                player_settings: PlayerSettings { cam_fwd: end.cam_fwd },
                ..self
            }
        } else {
            self
        }
    }

    /// The context after the focus was resolved and followed; unchanged where
    /// the outcome cannot be stored.
    pub open spec fn moved(self, dt: int, player: Option<Vec3>, secondary: Option<Vec3>) -> CameraContext {
        if self.config.can_move(self.settings, dt, player, secondary) {
            CameraContext {
                config: self.config.with_foci(
                    self.config.desired_focus(self.settings, player, secondary).stored(),
                    self.config.blended_focus(self.settings, dt, player, secondary).stored(),
                ),
                settings: self.settings.with_flags(self.config.current_spec().policy_spec().flags),
                ..self
            }
        } else {
            self
        }
    }

    /// The context after the authority handoff latched the flag it acted on.
    pub open spec fn handed(self) -> CameraContext {
        CameraContext {
            settings: MovementSettings {
                locked_to_player_previous: self.settings.locked_to_player,
                ..self.settings
            },
            ..self
        }
    }
}

/// Runs one frame of the rig.
///
/// The stages run in this order, each on what the one before left:
/// the mode selector and the scroll selector step on their keys; the wheel
/// turns the dial of the scroll target selected now; the mode selected now
/// is resolved, its flags are set and the focus follows; authority changes
/// hands if `locked_to_player` as just set differs from the value last acted
/// on; and the look controller turns the view unless `disable_look` as just
/// set forbids it. A stage whose numbers leave the range of the machine
/// reports that in its own result and changes nothing; the others run all
/// the same.
pub fn tick(ctx: &mut CameraContext, input: &FrameInput) -> (out: FrameOutput)
    requires
        old(ctx).wf(),
    ensures
        final(ctx).wf(),
        ({
            let keyed = old(ctx).keyed(input.just_pressed@);
            let scrolled = keyed.scrolled(input.fov, input.wheel@);
            let moved = scrolled.moved(input.dt as int, input.player, input.secondary);
            let handed = moved.handed();
            let actions = old(ctx).settings.map.actions(input.just_pressed@);
            let dials = dials_of(keyed.settings, keyed.player_settings, input.fov);
            &&& final(ctx).config == handed.config
            &&& final(ctx).settings == handed.settings
            &&& final(ctx).player_settings == handed.player_settings
            &&& final(ctx).scroll_type == handed.scroll_type
            &&& out.selected_mode == (if actions.next_cam {
                Some(keyed.config.current_spec())
            } else {
                None
            })
            &&& out.selected_scroll == (if actions.next_scroll {
                Some(keyed.scroll_type)
            } else {
                None
            })
            &&& out.toggle_grab == actions.toggle_grab
            &&& out.fov.is_ok() <==> dials.all_fit(keyed.scroll_type, input.wheel@)
            &&& out.fov matches Ok(fov) ==> fov == dials.turned_all(keyed.scroll_type, input.wheel@).fov
            &&& out.fov matches Err(e) ==> e == CameraError::OutOfRange
            &&& out.camera.is_ok() <==> scrolled.config.can_move(
                scrolled.settings,
                input.dt as int,
                input.player,
                input.secondary,
            )
            &&& out.camera matches Ok(motion) ==> scrolled.config.moves_camera(
                scrolled.settings,
                input.player,
                moved.config.camera_settings.camera_is_focus,
                motion,
            )
            &&& out.camera matches Err(e) ==> e == CameraError::OutOfRange
            &&& out.handoff == moved.settings.authority().handoff(moved.settings.locked_to_player)
            &&& looks(
                old(ctx).input_state.angles(),
                final(ctx).input_state.angles(),
                handed.settings,
                input.window,
                input.motion@,
                out.look,
            )
            &&& final(ctx).input_state.angles().pitch_in_limit()
        }),
{
    let toggle_grab = any_pressed(ctx.settings.map.toggle_grab, input.just_pressed);
    let selected_mode = cycle_cam_state(&ctx.settings, input.just_pressed, &mut ctx.config);
    let selected_scroll = switch_scroll_type(&ctx.settings.map, input.just_pressed, &mut ctx.scroll_type);
    let fov = scroll(
        &mut ctx.settings,
        &mut ctx.player_settings,
        ctx.scroll_type,
        input.fov,
        input.wheel,
    );
    let camera = move_camera(input.dt, &mut ctx.config, &mut ctx.settings, input.player, input.secondary);
    let handoff = toggle_camera_parent(&mut ctx.settings);
    let look = player_look(&ctx.settings, &input.window, &mut ctx.input_state, input.motion);
    FrameOutput { selected_mode, selected_scroll, toggle_grab, fov, camera, handoff, look }
}

/// The order of the stages is what lets the later ones see this frame's
/// mode: in a frame whose focus can be stored, the flags that the handoff and
/// the look controller read are those of the mode that the selector selected
/// in this very frame, and the handoff has latched that mode's lock.
pub proof fn lemma_later_stages_see_the_selected_mode(
    ctx: CameraContext,
    pressed: Seq<u32>,
    fov: u32,
    wheel: Seq<i64>,
    dt: int,
    player: Option<Vec3>,
    secondary: Option<Vec3>,
)
    requires
        ctx.keyed(pressed).scrolled(fov, wheel).config.can_move(
            ctx.keyed(pressed).scrolled(fov, wheel).settings,
            dt,
            player,
            secondary,
        ),
    ensures
        ({
            let flags = ctx.keyed(pressed).config.current_spec().policy_spec().flags;
            let moved = ctx.keyed(pressed).scrolled(fov, wheel).moved(dt, player, secondary);
            &&& moved.settings.locked_to_player == flags.locked_to_player
            &&& moved.handed().settings.disable_look == flags.disable_look
            &&& moved.handed().settings.disable_move == flags.disable_move
            &&& moved.handed().settings.locked_to_player_previous == flags.locked_to_player
        }),
{
}

} // verus!
