//! The tunable numbers and per-frame flags shared by the camera components.
use vstd::prelude::*;
use crate::mode::ModeFlags;

verus! {

/// Which keys stand for which action. A key is the number the host gives it.
#[derive(Clone, Copy, Debug)]
pub struct KeyMap {
    /// The keys that select the next camera mode.
    pub next_cam: &'static [u32],
    /// The keys that select the next scroll target.
    pub next_scroll: &'static [u32],
    /// The keys that grab or release the cursor.
    pub toggle_grab: &'static [u32],
}

/// The tunables of camera motion and the flags that the selected mode sets
/// each frame.
#[derive(Clone, Copy, Debug)]
pub struct MovementSettings {
    /// Degrees of turn per pixel of mouse travel and pixel of window extent,
    /// in millionths.
    pub sensitivity: u32,
    /// Units per second that the free camera moves, in millionths.
    pub speed: i64,
    /// How far from the player toward the second target the camera looks, in
    /// millionths: zero is the player, `SCALE` the second target.
    pub lerp: u32,
    /// The height of the top-down camera above the player, in millionths.
    pub dist: i64,
    /// The mouse does not turn the camera this frame.
    pub disable_look: bool,
    /// The keyboard does not move the camera this frame.
    pub disable_move: bool,
    /// The camera that rides on the player should render this frame.
    pub locked_to_player: bool,
    /// The value of `locked_to_player` that the authority handoff last acted
    /// on.
    pub locked_to_player_previous: bool,
    /// The key bindings.
    pub map: KeyMap,
}

impl MovementSettings {
    /// These settings with the flags replaced.
    pub open spec fn with_flags(&self, flags: ModeFlags) -> MovementSettings {
        MovementSettings {
            disable_look: flags.disable_look,
            disable_move: flags.disable_move,
            locked_to_player: flags.locked_to_player,
            ..*self
        }
    }

    /// Settings with the given tunables and bindings, all three flags clear and the
    /// free-standing camera rendering.
    pub fn new(sensitivity: u32, speed: i64, lerp: u32, dist: i64, map: KeyMap) -> (s: MovementSettings)
        ensures
            s == (MovementSettings {
                sensitivity,
                speed,
                lerp,
                dist,
                disable_look: false,
                disable_move: false,
                locked_to_player: false,
                locked_to_player_previous: false,
                map,
            }),
    {
        MovementSettings {
            sensitivity,
            speed,
            lerp,
            dist,
            disable_look: false,
            disable_move: false,
            locked_to_player: false,
            locked_to_player_previous: false,
            map,
        }
    }

    /// Sets the three flags and nothing else.
    pub fn set_flags(&mut self, flags: ModeFlags)
        ensures
            *final(self) == old(self).with_flags(flags),
    {
        self.disable_look = flags.disable_look;
        self.disable_move = flags.disable_move;
        self.locked_to_player = flags.locked_to_player;
    }
}

/// The settings of the player's own motion that the camera controls reach.
#[derive(Clone, Copy, Debug, PartialEq, Eq, Structural)]
pub struct PlayerSettings {
    /// Whether the player moves along the camera's forward direction.
    pub cam_fwd: bool,
}

} // verus!
