//! Tags by which the host tells the rig's entities apart in its scene.
use vstd::prelude::*;

verus! {

/// Tags the entity that the player's controller moves.
#[derive(Clone, Copy, Debug, Default)]
pub struct PlayerMove;

/// Tags the free-standing camera.
#[derive(Clone, Copy, Debug, Default)]
pub struct StaticCam;

/// Tags the camera attached to the player.
#[derive(Clone, Copy, Debug, Default)]
pub struct AttachedCam;

} // verus!
