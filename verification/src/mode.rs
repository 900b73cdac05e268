//! The camera behaviours and what each of them asks for.
use vstd::prelude::*;

verus! {

/// One of the mutually exclusive camera behaviours.
#[derive(Clone, Copy, Debug, PartialEq, Eq, Hash, Structural)]
pub enum CameraMode {
    /// Look at the player, or between the player and a second target.
    LookAt,
    /// Follow the player from where the camera stands.
    FollowStatic,
    /// Above the player, pointed straight down.
    TopDown,
    /// As `TopDown`, riding on the player and turning with it.
    TopDownDirection,
    /// Behind the player at a fixed distance, riding on it.
    FollowBehind,
    /// At the player's eyes, turned as the player is turned.
    Fps,
    /// Moved and turned freely by keyboard and mouse.
    Free,
}

/// The three flags that the selected mode sets for the rest of the frame.
#[derive(Clone, Copy, Debug, PartialEq, Eq, Structural)]
pub struct ModeFlags {
    /// The mouse does not turn the camera.
    pub disable_look: bool,
    /// The keyboard does not move the camera.
    pub disable_move: bool,
    /// The camera that rides on the player renders, not the free-standing one.
    pub locked_to_player: bool,
}

/// Where a mode wants the camera to look.
#[derive(Clone, Copy, Debug, PartialEq, Eq, Structural)]
pub enum FocusRule {
    /// Wherever it wanted to look before.
    Frozen,
    /// At the player, or between the player and the second target if there is one.
    Between,
    /// At the player.
    Player,
    /// At the player's eyes, one unit above the player.
    Eyes,
}

/// What a mode does to the camera itself.
#[derive(Clone, Copy, Debug, PartialEq, Eq, Structural)]
pub enum PoseRule {
    /// Nothing: keyboard and mouse place the camera, and no focus is followed.
    Manual,
    /// The camera stays where it is and is turned to face the damped focus.
    Facing,
    /// At the player's eyes, turned as the player.
    Eyes,
    /// The top-down distance above the player, pointed down, in the scene.
    Above,
    /// The top-down distance above the player, pointed down, riding on the player.
    AboveRiding,
    /// One unit above and four behind the player, riding on the player.
    BehindRiding,
}

/// One row of the mode table.
#[derive(Clone, Copy, Debug, PartialEq, Eq, Structural)]
pub struct ModePolicy {
    /// Where the camera should look.
    pub focus: FocusRule,
    /// What is done to the camera itself.
    pub pose: PoseRule,
    /// The flags for the rest of the frame.
    pub flags: ModeFlags,
}

impl CameraMode {
    /// The mode table: for each mode its focus rule, its pose rule and its flags.
    pub open spec fn policy_spec(self) -> ModePolicy {
        match self {
            CameraMode::Free => ModePolicy {
                focus: FocusRule::Frozen,
                pose: PoseRule::Manual,
                flags: ModeFlags { disable_look: false, disable_move: false, locked_to_player: false },
            },
            CameraMode::LookAt => ModePolicy {
                focus: FocusRule::Between,
                pose: PoseRule::Facing,
                flags: ModeFlags { disable_look: true, disable_move: false, locked_to_player: false },
            },
            CameraMode::FollowStatic => ModePolicy {
                focus: FocusRule::Player,
                pose: PoseRule::Facing,
                flags: ModeFlags { disable_look: true, disable_move: false, locked_to_player: false },
            },
            CameraMode::Fps => ModePolicy {
                focus: FocusRule::Eyes,
                pose: PoseRule::Eyes,
                flags: ModeFlags { disable_look: false, disable_move: true, locked_to_player: false },
            },
            CameraMode::TopDown => ModePolicy {
                focus: FocusRule::Player,
                pose: PoseRule::Above,
                flags: ModeFlags { disable_look: true, disable_move: true, locked_to_player: false },
            },
            CameraMode::TopDownDirection => ModePolicy {
                focus: FocusRule::Player,
                pose: PoseRule::AboveRiding,
                flags: ModeFlags { disable_look: true, disable_move: true, locked_to_player: true },
            },
            CameraMode::FollowBehind => ModePolicy {
                focus: FocusRule::Player,
                pose: PoseRule::BehindRiding,
                flags: ModeFlags { disable_look: true, disable_move: true, locked_to_player: true },
            },
        }
    }

    /// This mode's row of the mode table.
    pub fn policy(self) -> (row: ModePolicy)
        ensures
            row == self.policy_spec(),
    {
        let (focus, pose, disable_look, disable_move, locked_to_player) = match self {
            CameraMode::Free => (FocusRule::Frozen, PoseRule::Manual, false, false, false),
            CameraMode::LookAt => (FocusRule::Between, PoseRule::Facing, true, false, false),
            CameraMode::FollowStatic => (FocusRule::Player, PoseRule::Facing, true, false, false),
            CameraMode::Fps => (FocusRule::Eyes, PoseRule::Eyes, false, true, false),
            CameraMode::TopDown => (FocusRule::Player, PoseRule::Above, true, true, false),
            CameraMode::TopDownDirection => (
                FocusRule::Player,
                PoseRule::AboveRiding,
                true,
                true,
                true,
            ),
            CameraMode::FollowBehind => (FocusRule::Player, PoseRule::BehindRiding, true, true, true),
        };
        ModePolicy { focus, pose, flags: ModeFlags { disable_look, disable_move, locked_to_player } }
    }
}

} // verus!
