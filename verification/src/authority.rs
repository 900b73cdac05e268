//! Which of the two cameras renders: the free-standing one or the one that
//! rides on the player. Authority changes hands on the edges of the
//! `locked_to_player` flag and at no other time.
use vstd::prelude::*;
use crate::settings::MovementSettings;

verus! {

/// The two cameras of the rig.
#[derive(Clone, Copy, Debug, PartialEq, Eq, Hash, Structural)]
pub enum CameraRole {
    /// The free-standing camera.
    Static,
    /// The camera attached to the player as its child.
    Attached,
}

/// The state of the handoff: which camera renders.
#[derive(Clone, Copy, Debug, PartialEq, Eq, Hash, Structural)]
pub enum Authority {
    /// The free-standing camera renders.
    FollowingStatic,
    /// The camera attached to the player renders.
    FollowingAttached,
}

/// A change of authority: the camera that gives up rendering and the one that
/// takes it over.
#[derive(Clone, Copy, Debug, PartialEq, Eq, Hash, Structural)]
pub struct Handoff {
    /// The camera that rendered so far.
    pub release: CameraRole,
    /// The camera that renders from now on.
    pub claim: CameraRole,
}

/// One thing the host does to carry out a handoff.
#[derive(Clone, Copy, Debug, PartialEq, Eq, Hash, Structural)]
pub enum HandoffStep {
    /// Take the active render camera out of the active set.
    RemoveActive,
    /// Mark this camera as the active render camera.
    MarkActive(CameraRole),
    /// Put the active render camera into the active set.
    AddActive,
    /// Mark this camera as inactive.
    MarkInactive(CameraRole),
}

impl Authority {
    /// The authority that a value of the flag calls for.
    pub open spec fn wanted(locked_to_player: bool) -> Authority {
        if locked_to_player {
            Authority::FollowingAttached
        } else {
            Authority::FollowingStatic
        }
    }

    /// The camera that renders in this state.
    pub open spec fn holder(self) -> CameraRole {
        match self {
            Authority::FollowingStatic => CameraRole::Static,
            Authority::FollowingAttached => CameraRole::Attached,
        }
    }

    /// The handoff that a frame with the given flag fires in this state: one
    /// where the flag calls for the other camera, none where it does not.
    pub open spec fn handoff(self, locked_to_player: bool) -> Option<Handoff> {
        if Authority::wanted(locked_to_player) == self {
            None
        } else {
            Some(Handoff { release: self.holder(), claim: Authority::wanted(locked_to_player).holder() })
        }
    }

    /// The state after the flags of a run of frames, in order.
    pub open spec fn after(self, flags: Seq<bool>) -> Authority {
        if flags.len() == 0 {
            self
        } else {
            Authority::wanted(flags.last())
        }
    }

    /// How many handoffs a run of frames fires, starting in this state.
    pub open spec fn handoffs(self, flags: Seq<bool>) -> nat
        decreases flags.len(),
    {
        if flags.len() == 0 {
            0
        } else {
            let earlier = flags.drop_last();
            let fired: nat = if self.after(earlier).handoff(flags.last()).is_some() {
                1
            } else {
                0
            };
            self.handoffs(earlier) + fired
        }
    }

    /// One frame of the state machine: the next state and the handoff to
    /// carry out, if the flag crossed an edge.
    pub fn step(self, locked_to_player: bool) -> (r: (Authority, Option<Handoff>))
        ensures
            r.0 == Authority::wanted(locked_to_player),
            r.1 == self.handoff(locked_to_player),
    {
        match (self, locked_to_player) {
            (Authority::FollowingStatic, true) => (
                Authority::FollowingAttached,
                Some(Handoff { release: CameraRole::Static, claim: CameraRole::Attached }),
            ),
            (Authority::FollowingAttached, false) => (
                Authority::FollowingStatic,
                Some(Handoff { release: CameraRole::Attached, claim: CameraRole::Static }),
            ),
            (state, _) => (state, None),
        }
    }
}

impl Handoff {
    /// What the host does, in order: the active camera leaves the active set,
    /// the claiming camera is marked active and enters the set, and the
    /// releasing camera is marked inactive.
    pub open spec fn steps_spec(self) -> Seq<HandoffStep> {
        seq![
            HandoffStep::RemoveActive,
            HandoffStep::MarkActive(self.claim),
            HandoffStep::AddActive,
            HandoffStep::MarkInactive(self.release),
        ]
    }

    /// What the host does to carry out this handoff, in order.
    pub fn steps(&self) -> (steps: Vec<HandoffStep>)
        ensures
            steps@ == self.steps_spec(),
    {
        let steps = vec![
            HandoffStep::RemoveActive,
            HandoffStep::MarkActive(self.claim),
            HandoffStep::AddActive,
            HandoffStep::MarkInactive(self.release),
        ];
        assert(steps@ =~= self.steps_spec());
        steps
    }
}

impl MovementSettings {
    /// The state of the handoff that these settings record.
    pub open spec fn authority(&self) -> Authority {
        Authority::wanted(self.locked_to_player_previous)
    }
}

/// Runs the authority handoff for one frame.
///
/// A handoff is returned exactly where the `locked_to_player` flag differs
/// from the value last acted on: to the attached camera where it rose, back to
/// the free-standing one where it fell. The value acted on is latched, so the
/// same flag fires nothing in the next frame.
pub fn toggle_camera_parent(settings: &mut MovementSettings) -> (r: Option<Handoff>)
    ensures
        r == old(settings).authority().handoff(old(settings).locked_to_player),
        r.is_some() <==> old(settings).locked_to_player != old(settings).locked_to_player_previous,
        *final(settings) == (MovementSettings {
            locked_to_player_previous: old(settings).locked_to_player,
            ..*old(settings)
        }),
        final(settings).authority() == Authority::wanted(old(settings).locked_to_player),
{
    let state = if settings.locked_to_player_previous {
        Authority::FollowingAttached
    } else {
        Authority::FollowingStatic
    };
    let (_, handoff) = state.step(settings.locked_to_player);
    settings.locked_to_player_previous = settings.locked_to_player;
    handoff
}

/// How many times the flag changes over a run of frames, `first` being its
/// value before the run.
pub open spec fn edges(first: bool, flags: Seq<bool>) -> nat
    decreases flags.len(),
{
    if flags.len() == 0 {
        0
    } else {
        let earlier = flags.drop_last();
        let before = if earlier.len() == 0 {
            first
        } else {
            earlier.last()
        };
        let crossed: nat = if flags.last() != before {
            1
        } else {
            0
        };
        edges(first, earlier) + crossed
    }
}

/// The handoff is edge-triggered: a frame fires a handoff exactly where the
/// flag differs from what the state stands for, and the same flag fires
/// nothing in the frame after.
pub proof fn lemma_handoff_on_edge(state: Authority, locked_to_player: bool)
    ensures
        state.handoff(locked_to_player).is_some() <==> Authority::wanted(locked_to_player) != state,
        Authority::wanted(locked_to_player).handoff(locked_to_player).is_none(),
{
}

/// Over any run of frames the number of handoffs fired is the number of times
/// the flag changed: one per edge, none while the flag is held.
pub proof fn lemma_one_handoff_per_edge(first: bool, flags: Seq<bool>)
    ensures
        Authority::wanted(first).handoffs(flags) == edges(first, flags),
    decreases flags.len(),
{
    if flags.len() > 0 {
        lemma_one_handoff_per_edge(first, flags.drop_last());
    }
}

} // verus!
