//! The configuration that the host owns for the lifetime of the camera: the
//! enabled modes and which of them is selected, the entities involved, and the
//! camera's own state.
use vstd::prelude::*;
use bevy_ecs::entity::Entity;
use crate::cycle::{cycle_next, index_after, lemma_cycle_closes, lemma_index_after, next_index};
use crate::error::CameraError;
use crate::mode::CameraMode;
use crate::vec3::Vec3;

verus! {

/// `bevy_ecs::entity::Entity`, the handle by which the scene names an entity.
/// Nothing is claimed of it: the core keeps such handles for the host and
/// never looks inside one.
#[verifier::external_type_specification]
#[verifier::external_body]
pub struct ExEntity(bevy_ecs::entity::Entity);

/// Where a camera starts: the point it stands at and the point it faces, with
/// the world's Y axis up.
#[derive(Clone, Copy, Debug, PartialEq, Eq, Structural)]
pub struct Placement {
    /// Where the camera stands.
    pub eye: Vec3,
    /// The point the camera faces.
    pub looking_at: Vec3,
}

/// The tunables of the player's controller, in millionths.
#[derive(Clone, Copy, Debug, PartialEq, Eq, Structural)]
pub struct Controller {
    /// Units per second that the player moves.
    pub speed: i64,
    /// Radians per second that the player turns.
    pub rot_speed: i64,
    /// A spare tunable, kept for the host; the core does not read it.
    pub map: i64,
}

/// The camera's tunables and running state.
#[derive(Clone, Copy, Debug)]
pub struct CameraSettings {
    /// Degrees of turn per pixel of mouse travel and pixel of window extent,
    /// in millionths.
    pub mouse_sensitivity: u32,
    /// Units per second, in millionths.
    pub speed: i64,
    /// Where the free-standing camera starts.
    pub pos: Placement,
    /// A spare tunable, kept for the host; the core does not read it.
    pub map: i64,
    /// The free-standing camera, once the scene has one.
    pub camera: Option<Entity>,
    /// The point the camera should come to look at.
    pub camera_should_focus: Vec3,
    /// The point the camera looks at now; it lags behind the other.
    pub camera_is_focus: Vec3,
    /// The camera that rides on the player, once the scene has one.
    pub attached_camera: Option<Entity>,
}

/// The camera configuration: the enabled modes in order, the selected one, the
/// player and the second target, and the camera's settings.
#[derive(Clone, Copy, Debug)]
pub struct Config {
    /// The index of the selected mode in `allowed_camera_modes`.
    pub current_camera_mode: usize,
    /// The enabled modes, in the order in which they are cycled through.
    pub allowed_camera_modes: &'static [CameraMode],
    /// The player.
    pub target: Option<Entity>,
    /// The second target.
    pub external_target: Option<Entity>,
    /// The camera's tunables and its two foci.
    pub camera_settings: CameraSettings,
    /// The tunables of the player's controller, if the rig drives one.
    pub controller_settings: Option<Controller>,
}

impl Config {
    /// At least one mode is enabled and the selected index names one of them.
    pub open spec fn wf(&self) -> bool {
        self.current_camera_mode < self.allowed_camera_modes@.len()
    }

    /// The selected mode.
    pub open spec fn current_spec(&self) -> CameraMode {
        self.allowed_camera_modes@[self.current_camera_mode as int]
    }

    /// This configuration with another mode selected.
    pub open spec fn with_index(&self, index: int) -> Config {
        Config { current_camera_mode: index as usize, ..*self }
    }

    /// This configuration after `steps` mode-switch actions.
    pub open spec fn after_actions(&self, steps: nat) -> Config {
        self.with_index(
            index_after(self.current_camera_mode as int, self.allowed_camera_modes@.len() as int, steps),
        )
    }

    /// A configuration with the given modes enabled and the first of them
    /// selected, no entities assigned and both foci at the origin. An empty
    /// list of modes is refused.
    pub fn new(
        allowed_camera_modes: &'static [CameraMode],
        mouse_sensitivity: u32,
        speed: i64,
        pos: Placement,
    ) -> (r: Result<Config, CameraError>)
        ensures
            allowed_camera_modes@.len() == 0 ==> r == Err::<Config, CameraError>(
                CameraError::EmptyModeList,
            ),
            allowed_camera_modes@.len() > 0 ==> r == Ok::<Config, CameraError>(
                Config {
                    current_camera_mode: 0,
                    allowed_camera_modes,
                    target: None,
                    external_target: None,
                    camera_settings: CameraSettings {
                        mouse_sensitivity,
                        speed,
                        pos,
                        map: 0,
                        camera: None,
                        camera_should_focus: Vec3 { x: 0, y: 0, z: 0 },
                        camera_is_focus: Vec3 { x: 0, y: 0, z: 0 },
                        attached_camera: None,
                    },
                    controller_settings: None,
                },
            ),
            r matches Ok(c) ==> c.wf(),
    {
        if allowed_camera_modes.len() == 0 {
            return Err(CameraError::EmptyModeList);
        }
        Ok(
            Config {
                current_camera_mode: 0,
                allowed_camera_modes,
                target: None,
                external_target: None,
                camera_settings: CameraSettings {
                    mouse_sensitivity,
                    speed,
                    pos,
                    map: 0,
                    camera: None,
                    camera_should_focus: Vec3::new(0, 0, 0),
                    camera_is_focus: Vec3::new(0, 0, 0),
                    attached_camera: None,
                },
                controller_settings: None,
            },
        )
    }

    /// The selected mode.
    pub fn current(&self) -> (mode: CameraMode)
        requires
            self.wf(),
        ensures
            mode == self.current_spec(),
    {
        self.allowed_camera_modes[self.current_camera_mode]
    }

    /// Selects the next enabled mode if a mode-switch action was seen this
    /// frame, the first one after the last; does nothing otherwise.
    pub fn advance(&mut self, action: bool)
        requires
            old(self).wf(),
        ensures
            final(self).wf(),
            action ==> *final(self) == old(self).with_index(
                next_index(
                    old(self).current_camera_mode as int,
                    old(self).allowed_camera_modes@.len() as int,
                ),
            ),
            action ==> *final(self) == old(self).after_actions(1),
            !action ==> *final(self) == *old(self),
    {
        proof {
            reveal_with_fuel(index_after, 2);
        }
        if action {
            self.current_camera_mode = cycle_next(
                self.current_camera_mode,
                self.allowed_camera_modes.len(),
            );
        }
    }
}

/// The modes enabled by default, in their order.
pub open spec fn default_modes() -> Seq<CameraMode> {
    seq![
        CameraMode::LookAt,
        CameraMode::FollowStatic,
        CameraMode::TopDown,
        CameraMode::FollowBehind,
        CameraMode::Fps,
        CameraMode::Free,
    ]
}

impl Default for Config {
    /// Six modes enabled and the first selected; no entities assigned; the
    /// camera five units up and back and two to the left, facing the origin;
    /// both foci at the origin; a player controller of unit speed.
    fn default() -> (c: Config)
        ensures
            c.wf(),
            c.current_camera_mode == 0,
            c.allowed_camera_modes@ == default_modes(),
            c.target.is_none(),
            c.external_target.is_none(),
            c.camera_settings == (CameraSettings {
                mouse_sensitivity: 120,
                speed: 12_000_000,
                pos: Placement {
                    eye: Vec3 { x: -2_000_000i64, y: 5_000_000, z: 5_000_000 },
                    looking_at: Vec3 { x: 0, y: 0, z: 0 },
                },
                map: 0,
                camera: None,
                camera_should_focus: Vec3 { x: 0, y: 0, z: 0 },
                camera_is_focus: Vec3 { x: 0, y: 0, z: 0 },
                attached_camera: None,
            }),
            c.controller_settings == Some(Controller { speed: 1_000_000, rot_speed: 100_000, map: 0 }),
    {
        let modes: &'static [CameraMode] = &[
            CameraMode::LookAt,
            CameraMode::FollowStatic,
            CameraMode::TopDown,
            CameraMode::FollowBehind,
            CameraMode::Fps,
            CameraMode::Free,
        ];
        assert(modes@ =~= default_modes());
        Config {
            current_camera_mode: 0,
            allowed_camera_modes: modes,
            target: None,
            external_target: None,
            camera_settings: CameraSettings {
                mouse_sensitivity: 120,
                speed: 12_000_000,
                pos: Placement {
                    eye: Vec3::new(-2_000_000, 5_000_000, 5_000_000),
                    looking_at: Vec3::new(0, 0, 0),
                },
                map: 0,
                camera: None,
                camera_should_focus: Vec3::new(0, 0, 0),
                camera_is_focus: Vec3::new(0, 0, 0),
                attached_camera: None,
            },
            controller_settings: Some(Controller { speed: 1_000_000, rot_speed: 100_000, map: 0 }),
        }
    }
}

/// Every run of mode-switch actions leaves a mode selected, and one action
/// more is one step from there.
pub proof fn lemma_actions_compose(config: Config, steps: nat)
    requires
        config.wf(),
    ensures
        config.after_actions(steps).wf(),
        config.after_actions(steps + 1) == config.after_actions(steps).after_actions(1),
{
    reveal_with_fuel(index_after, 2);
    vstd::slice::axiom_spec_len(config.allowed_camera_modes);
    lemma_index_after(
        config.current_camera_mode as int,
        config.allowed_camera_modes@.len() as int,
        steps,
    );
}

/// Cyclic closure: as many mode-switch actions as there are enabled modes
/// bring back the mode that was selected at the start, and the configuration
/// with it.
pub proof fn lemma_advance_cycle_closes(config: Config)
    requires
        config.wf(),
    ensures
        config.after_actions(config.allowed_camera_modes@.len()) == config,
{
    lemma_cycle_closes(
        config.current_camera_mode as int,
        config.allowed_camera_modes@.len() as int,
    );
}

} // verus!
