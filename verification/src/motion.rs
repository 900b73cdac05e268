//! One frame of camera motion: the selected mode is resolved against the
//! scene, the actual focus follows the desired one, and the host is told what
//! to do with the camera.
use vstd::prelude::*;
use crate::blend::{blend, blend_factor, blend_spec, lemma_blend_never_overshoots};
use crate::config::Config;
use crate::error::CameraError;
use crate::fixed::SCALE;
use crate::focus::{
    focus_point, has_room, lemma_resolves_with_room, resolvable, resolve_focus, rigid_pose,
    RigidOverride,
};
use crate::mode::PoseRule;
use crate::settings::MovementSettings;
use crate::vec3::{Point, Vec3};

verus! {

/// What the host does with the rendering camera at the end of the frame.
#[derive(Clone, Copy, Debug, PartialEq, Eq, Structural)]
pub enum CameraMotion {
    /// Nothing: the camera is left as it is.
    Hold,
    /// The camera's pose is set to the override, whatever the damped focus is.
    Rigid(RigidOverride),
    /// The camera stays where it stands and is turned to face this point, the
    /// world's Y axis up.
    LookAt(Vec3),
}

impl Config {
    /// This configuration with the two foci replaced.
    pub open spec fn with_foci(&self, desired: Vec3, actual: Vec3) -> Config {
        Config {
            camera_settings: crate::config::CameraSettings {
                camera_should_focus: desired,
                camera_is_focus: actual,
                ..self.camera_settings
            },
            ..*self
        }
    }

    /// The focus that the selected mode desires for a scene.
    pub open spec fn desired_focus(
        &self,
        settings: MovementSettings,
        player: Option<Vec3>,
        secondary: Option<Vec3>,
    ) -> Point {
        focus_point(
            self.current_spec().policy_spec().focus,
            player,
            secondary,
            settings.lerp as int,
            self.camera_settings.camera_should_focus,
        )
    }

    /// The actual focus after a frame of `dt` millionths of a second: where
    /// it was under a manual mode, else blended toward the desired focus.
    pub open spec fn blended_focus(
        &self,
        settings: MovementSettings,
        dt: int,
        player: Option<Vec3>,
        secondary: Option<Vec3>,
    ) -> Point {
        if self.current_spec().policy_spec().pose == PoseRule::Manual {
            self.camera_settings.camera_is_focus@
        } else {
            blend_spec(
                self.camera_settings.camera_is_focus@,
                self.desired_focus(settings, player, secondary),
                dt,
            )
        }
    }

    /// Whether the machine can store the outcome of the frame.
    pub open spec fn can_move(
        &self,
        settings: MovementSettings,
        dt: int,
        player: Option<Vec3>,
        secondary: Option<Vec3>,
    ) -> bool {
        ||| self.current_spec().policy_spec().pose == PoseRule::Manual
        ||| {
            &&& resolvable(
                self.current_spec(),
                player,
                secondary,
                settings.lerp as int,
                settings.dist as int,
                self.camera_settings.camera_should_focus,
            )
            &&& self.blended_focus(settings, dt, player, secondary).fits()
        }
    }

    /// Whether `motion` is what the selected mode does to the camera, `actual`
    /// being the blended focus.
    pub open spec fn moves_camera(
        &self,
        settings: MovementSettings,
        player: Option<Vec3>,
        actual: Vec3,
        motion: CameraMotion,
    ) -> bool {
        let rule = self.current_spec().policy_spec().pose;
        if rule == PoseRule::Manual {
            motion == CameraMotion::Hold
        } else {
            match rigid_pose(rule, player, settings.dist as int) {
                Some(pose) => motion matches CameraMotion::Rigid(o) && o@ == pose,
                None => motion == CameraMotion::LookAt(actual),
            }
        }
    }
}

/// Moves the camera's focus for one frame and says what to do with the camera.
///
/// `dt` is the time the frame took, in millionths of a second; `player` and
/// `secondary` are the positions of the player and of the second target,
/// absent where none is assigned or the scene no longer has it.
///
/// The flags in `settings` become those of the selected mode. Under a manual
/// mode nothing else changes and the camera is held. Under every other mode
/// the desired focus becomes what the mode asks for and the actual focus is
/// blended toward it; the camera is then set to the mode's rigid override if
/// there is one, and is else turned to face the actual focus. Where a
/// coordinate of the outcome leaves the range of `i64` the call fails and
/// changes nothing.
pub fn move_camera(
    dt: u32,
    config: &mut Config,
    settings: &mut MovementSettings,
    player: Option<Vec3>,
    secondary: Option<Vec3>,
) -> (r: Result<CameraMotion, CameraError>)
    requires
        old(config).wf(),
    ensures
        final(config).wf(),
        r.is_ok() <==> old(config).can_move(*old(settings), dt as int, player, secondary),
        r matches Ok(motion) ==> {
            let desired = final(config).camera_settings.camera_should_focus;
            let actual = final(config).camera_settings.camera_is_focus;
            &&& *final(settings) == old(settings).with_flags(
                old(config).current_spec().policy_spec().flags,
            )
            &&& *final(config) == old(config).with_foci(desired, actual)
            &&& desired@ == old(config).desired_focus(*old(settings), player, secondary)
            &&& actual@ == old(config).blended_focus(*old(settings), dt as int, player, secondary)
            &&& old(config).moves_camera(*old(settings), player, actual, motion)
        },
        r matches Err(e) ==> {
            &&& e == CameraError::OutOfRange
            &&& *final(config) == *old(config)
            &&& *final(settings) == *old(settings)
        },
{
    let mode = config.current();
    let row = mode.policy();
    if row.pose == PoseRule::Manual {
        settings.set_flags(row.flags);
        return Ok(CameraMotion::Hold);
    }
    let resolution = match resolve_focus(
        mode,
        player,
        secondary,
        settings.lerp,
        settings.dist,
        config.camera_settings.camera_should_focus,
    ) {
        Ok(resolution) => resolution,
        Err(e) => {
            return Err(e);
        },
    };
    let actual = match blend(config.camera_settings.camera_is_focus, resolution.desired_focus, dt) {
        Some(actual) => actual,
        None => {
            return Err(CameraError::OutOfRange);
        },
    };
    settings.set_flags(resolution.flags);
    config.camera_settings.camera_should_focus = resolution.desired_focus;
    config.camera_settings.camera_is_focus = actual;
    match resolution.rigid_override {
        Some(pose) => Ok(CameraMotion::Rigid(pose)),
        None => Ok(CameraMotion::LookAt(actual)),
    }
}

/// A frame succeeds whenever the lerp factor is at most one, the player has
/// room, and the frame is short enough for the blend factor to be at most
/// one, that is, no longer than half a second.
pub proof fn lemma_can_move_with_room(
    config: Config,
    settings: MovementSettings,
    dt: int,
    player: Option<Vec3>,
    secondary: Option<Vec3>,
)
    requires
        config.wf(),
        settings.lerp <= SCALE,
        has_room(player, settings.dist as int),
        0 <= blend_factor(dt) <= SCALE,
    ensures
        config.can_move(settings, dt, player, secondary),
{
    lemma_resolves_with_room(
        config.current_spec(),
        player,
        secondary,
        settings.lerp as int,
        settings.dist as int,
        config.camera_settings.camera_should_focus,
    );
    lemma_blend_never_overshoots(
        config.camera_settings.camera_is_focus@,
        config.desired_focus(settings, player, secondary),
        dt,
    );
}

} // verus!
