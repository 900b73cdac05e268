//! Where the camera should look, and where a mode pins it: the mode table
//! applied to the positions of the player and of the second target.
use vstd::prelude::*;
use crate::error::CameraError;
use crate::mode::{CameraMode, FocusRule, ModeFlags, PoseRule};
use crate::fixed::SCALE;
use crate::fixed::fits_i64;
use crate::vec3::{lemma_lerp_between, lemma_lerp_endpoints, Point, Vec3};

verus! {

/// The height of the player's eyes above the player's position: one unit.
pub const EYE_HEIGHT: i64 = 1_000_000;

/// How far above the player the following camera rides: one unit.
pub const FOLLOW_HEIGHT: i64 = 1_000_000;

/// How far behind the player the following camera rides: four units.
pub const FOLLOW_DISTANCE: i64 = 4_000_000;

/// How a pinned camera is turned.
#[derive(Clone, Copy, Debug, PartialEq, Eq, Structural)]
pub enum RigidRotation {
    /// Not turned at all.
    Identity,
    /// Pitched a quarter turn down about the X axis, to look at the ground.
    PitchDown,
    /// Turned as the player is turned.
    Player,
}

/// A pose that a mode sets the camera to directly, past the damped focus.
#[derive(Clone, Copy, Debug, PartialEq, Eq, Structural)]
pub struct RigidOverride {
    /// Where the camera stands: the player's position plus `offset`.
    pub translation: Vec3,
    /// Where the camera stands as seen from the player.
    pub offset: Vec3,
    /// How the camera is turned.
    pub rotation: RigidRotation,
    /// Whether the camera rides on the player, so that `offset` and `rotation`
    /// are meant in the player's frame and the camera is not repositioned in
    /// the scene.
    pub relative: bool,
}

/// A rigid override over unbounded coordinates.
pub struct RigidPose {
    /// Where the camera stands in the scene.
    pub translation: Point,
    /// Where the camera stands as seen from the player.
    pub offset: Point,
    /// How the camera is turned.
    pub rotation: RigidRotation,
    /// Whether the camera rides on the player.
    pub relative: bool,
}

impl View for RigidOverride {
    type V = RigidPose;

    open spec fn view(&self) -> RigidPose {
        RigidPose {
            translation: self.translation@,
            offset: self.offset@,
            rotation: self.rotation,
            relative: self.relative,
        }
    }
}

/// What the resolver hands to the rest of the frame.
#[derive(Clone, Copy, Debug, PartialEq, Eq, Structural)]
pub struct Resolution {
    /// The point the camera should come to look at.
    pub desired_focus: Vec3,
    /// The pose to set the camera to directly, if the mode pins it.
    pub rigid_override: Option<RigidOverride>,
    /// The flags of the mode.
    pub flags: ModeFlags,
}

/// The point a focus rule selects. Without a player every rule but `Frozen`
/// falls back to the origin.
pub open spec fn focus_point(
    rule: FocusRule,
    player: Option<Vec3>,
    secondary: Option<Vec3>,
    lerp: int,
    previous: Vec3,
) -> Point {
    match (rule, player) {
        (FocusRule::Frozen, _) => previous@,
        (_, None) => Point::origin(),
        (FocusRule::Between, Some(p)) => match secondary {
            Some(s) => p@.lerp(s@, lerp),
            None => p@,
        },
        (FocusRule::Player, Some(p)) => p@,
        (FocusRule::Eyes, Some(p)) => p@.plus(Point { x: 0, y: EYE_HEIGHT as int, z: 0 }),
    }
}

/// The pose a pose rule pins the camera to. There is none for `Manual` and
/// `Facing`, and none without a player.
pub open spec fn rigid_pose(rule: PoseRule, player: Option<Vec3>, dist: int) -> Option<RigidPose> {
    match (rule, player) {
        (PoseRule::Manual, _) => None,
        (PoseRule::Facing, _) => None,
        (_, None) => None,
        (PoseRule::Eyes, Some(p)) => Some(
            pose_at(p@, Point { x: 0, y: EYE_HEIGHT as int, z: 0 }, RigidRotation::Player, false),
        ),
        (PoseRule::Above, Some(p)) => Some(
            pose_at(p@, Point { x: 0, y: dist, z: 0 }, RigidRotation::PitchDown, false),
        ),
        (PoseRule::AboveRiding, Some(p)) => Some(
            pose_at(p@, Point { x: 0, y: dist, z: 0 }, RigidRotation::PitchDown, true),
        ),
        (PoseRule::BehindRiding, Some(p)) => Some(
            pose_at(
                p@,
                Point { x: 0, y: FOLLOW_HEIGHT as int, z: FOLLOW_DISTANCE as int },
                RigidRotation::Identity,
                true,
            ),
        ),
    }
}

/// The pose at `offset` from the player.
pub open spec fn pose_at(player: Point, offset: Point, rotation: RigidRotation, relative: bool) -> RigidPose {
    RigidPose { translation: player.plus(offset), offset, rotation, relative }
}

/// Whether the machine can store what the mode asks for.
pub open spec fn resolvable(
    mode: CameraMode,
    player: Option<Vec3>,
    secondary: Option<Vec3>,
    lerp: int,
    dist: int,
    previous: Vec3,
) -> bool {
    &&& focus_point(mode.policy_spec().focus, player, secondary, lerp, previous).fits()
    &&& match rigid_pose(mode.policy_spec().pose, player, dist) {
        Some(pose) => pose.translation.fits(),
        None => true,
    }
}

/// Whether `res` is what `mode` asks for, given where the player and the
/// second target are.
pub open spec fn resolves(
    res: Resolution,
    mode: CameraMode,
    player: Option<Vec3>,
    secondary: Option<Vec3>,
    lerp: int,
    dist: int,
    previous: Vec3,
) -> bool {
    &&& res.flags == mode.policy_spec().flags
    &&& res.desired_focus@ == focus_point(mode.policy_spec().focus, player, secondary, lerp, previous)
    &&& match rigid_pose(mode.policy_spec().pose, player, dist) {
        Some(pose) => res.rigid_override.is_some() && res.rigid_override.unwrap()@ == pose,
        None => res.rigid_override.is_none(),
    }
}

/// The desired focus under `rule`, where it can be stored.
fn resolve_point(
    rule: FocusRule,
    player: Option<Vec3>,
    secondary: Option<Vec3>,
    lerp: u32,
    previous: Vec3,
) -> (r: Option<Vec3>)
    ensures
        focus_point(rule, player, secondary, lerp as int, previous).stored_as(r),
{
    match rule {
        FocusRule::Frozen => Some(previous),
        _ => match player {
            None => Some(Vec3::zero()),
            Some(p) => match rule {
                FocusRule::Between => match secondary {
                    Some(s) => p.lerp(s, lerp),
                    None => Some(p),
                },
                FocusRule::Eyes => p.checked_add(Vec3::new(0, EYE_HEIGHT, 0)),
                _ => Some(p),
            },
        },
    }
}

/// The pose under `rule`, where there is one and it can be stored: `Ok(None)`
/// where the rule pins nothing, `Err` where the pose cannot be stored.
fn resolve_pose(rule: PoseRule, player: Option<Vec3>, dist: i64) -> (r: Result<
    Option<RigidOverride>,
    CameraError,
>)
    ensures
        match rigid_pose(rule, player, dist as int) {
            None => r == Ok::<Option<RigidOverride>, CameraError>(None),
            Some(pose) => if pose.translation.fits() {
                r.is_ok() && r.unwrap().is_some() && r.unwrap().unwrap()@ == pose
            } else {
                r == Err::<Option<RigidOverride>, CameraError>(CameraError::OutOfRange)
            },
        },
{
    let p = match player {
        Some(p) => p,
        None => {
            return Ok(None);
        },
    };
    let (offset, rotation, relative) = match rule {
        PoseRule::Manual => {
            return Ok(None);
        },
        PoseRule::Facing => {
            return Ok(None);
        },
        PoseRule::Eyes => (Vec3::new(0, EYE_HEIGHT, 0), RigidRotation::Player, false),
        PoseRule::Above => (Vec3::new(0, dist, 0), RigidRotation::PitchDown, false),
        PoseRule::AboveRiding => (Vec3::new(0, dist, 0), RigidRotation::PitchDown, true),
        PoseRule::BehindRiding => (
            Vec3::new(0, FOLLOW_HEIGHT, FOLLOW_DISTANCE),
            RigidRotation::Identity,
            true,
        ),
    };
    match p.checked_add(offset) {
        Some(translation) => Ok(Some(RigidOverride { translation, offset, rotation, relative })),
        None => Err(CameraError::OutOfRange),
    }
}

/// Resolves the selected mode against this frame's scene.
///
/// `player` and `secondary` are the positions of the player and of the second
/// target, absent where none is assigned or the scene no longer has it; `lerp`
/// is the lerp factor and `dist` the top-down distance, both in millionths;
/// `previous` is the focus desired so far.
///
/// The flags are those of the mode's row. The desired focus follows the row's
/// focus rule: frozen, the player, the player's eyes, or the lerp from the
/// player toward the second target; without a player it is the origin. The
/// rigid override follows the row's pose rule and exists only with a player.
/// The call fails, with `OutOfRange`, exactly where a coordinate of the focus
/// or of the override's translation leaves the range of `i64`.
pub fn resolve_focus(
    mode: CameraMode,
    player: Option<Vec3>,
    secondary: Option<Vec3>,
    lerp: u32,
    dist: i64,
    previous: Vec3,
) -> (r: Result<Resolution, CameraError>)
    ensures
        r.is_ok() <==> resolvable(mode, player, secondary, lerp as int, dist as int, previous),
        r matches Ok(res) ==> resolves(res, mode, player, secondary, lerp as int, dist as int, previous),
        r matches Err(e) ==> e == CameraError::OutOfRange,
{
    let row = mode.policy();
    let desired_focus = match resolve_point(row.focus, player, secondary, lerp, previous) {
        Some(f) => f,
        None => {
            return Err(CameraError::OutOfRange);
        },
    };
    let rigid_override = match resolve_pose(row.pose, player, dist) {
        Ok(o) => o,
        Err(e) => {
            return Err(e);
        },
    };
    Ok(Resolution { desired_focus, rigid_override, flags: row.flags })
}

/// In `LookAt` mode the resolver desires exactly the player's position when
/// only the player is there, whatever the lerp factor, and when the lerp
/// factor is zero; with a second target and a lerp factor of one it desires
/// exactly the second target's position.
pub proof fn lemma_look_at_ends(
    res: Resolution,
    player: Vec3,
    secondary: Option<Vec3>,
    lerp: int,
    dist: int,
    previous: Vec3,
)
    requires
        resolves(res, CameraMode::LookAt, Some(player), secondary, lerp, dist, previous),
    ensures
        secondary.is_none() || lerp == 0 ==> res.desired_focus == player,
        secondary.is_some() && lerp == SCALE ==> res.desired_focus == secondary.unwrap(),
{
    if let Some(s) = secondary {
        lemma_lerp_endpoints(player@, s@);
    }
}

/// In `LookAt` mode the resolver succeeds for every lerp factor from zero to
/// one, wherever the player and the second target are, and for every lerp
/// factor when only the player is there.
pub proof fn lemma_look_at_resolves(
    player: Vec3,
    secondary: Option<Vec3>,
    lerp: int,
    dist: int,
    previous: Vec3,
)
    requires
        secondary.is_none() || 0 <= lerp <= SCALE,
    ensures
        resolvable(CameraMode::LookAt, Some(player), secondary, lerp, dist, previous),
{
    if let Some(s) = secondary {
        lemma_lerp_between(player@, s@, lerp);
    }
}

/// Whether the player stands far enough from the end of the range for a
/// camera to be put at its eyes, above it and behind it.
pub open spec fn has_room(player: Option<Vec3>, dist: int) -> bool {
    match player {
        Some(p) => {
            &&& fits_i64(p.y + EYE_HEIGHT)
            &&& fits_i64(p.y + FOLLOW_HEIGHT)
            &&& fits_i64(p.y + dist)
            &&& fits_i64(p.z + FOLLOW_DISTANCE)
        },
        None => true,
    }
}

/// With a lerp factor of at most one and a player that has room, every mode
/// resolves.
pub proof fn lemma_resolves_with_room(
    mode: CameraMode,
    player: Option<Vec3>,
    secondary: Option<Vec3>,
    lerp: int,
    dist: int,
    previous: Vec3,
)
    requires
        0 <= lerp <= SCALE,
        has_room(player, dist),
    ensures
        resolvable(mode, player, secondary, lerp, dist, previous),
{
    if let (Some(p), Some(s)) = (player, secondary) {
        lemma_lerp_between(p@, s@, lerp);
    }
}

} // verus!
