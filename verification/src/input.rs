//! From keys to actions: which of the camera's three actions the keys that
//! went down this frame ask for.
use vstd::prelude::*;
use vstd::std_specs::cmp::PartialEqSpec;
use crate::config::Config;
use crate::mode::CameraMode;
use crate::settings::{KeyMap, MovementSettings};

verus! {

/// The actions that the keys of one frame ask for.
#[derive(Clone, Copy, Debug, PartialEq, Eq, Structural)]
pub struct Actions {
    /// Select the next camera mode.
    pub next_cam: bool,
    /// Select the next scroll target.
    pub next_scroll: bool,
    /// Grab or release the cursor.
    pub toggle_grab: bool,
}

/// Whether one of the keys in `pressed` is among `codes`.
pub open spec fn any_bound(codes: Seq<u32>, pressed: Seq<u32>) -> bool {
    exists|i: int| 0 <= i < pressed.len() && codes.contains(#[trigger] pressed[i])
}

impl KeyMap {
    /// No key selects both the next camera mode and the next scroll target,
    /// so that one key press never steps both selectors.
    pub open spec fn independent(&self) -> bool {
        forall|i: int|
            0 <= i < self.next_cam@.len() ==> !self.next_scroll@.contains(#[trigger] self.next_cam@[i])
    }

    /// The actions that a frame's key presses ask for under these bindings.
    pub open spec fn actions(&self, pressed: Seq<u32>) -> Actions {
        Actions {
            next_cam: any_bound(self.next_cam@, pressed),
            next_scroll: any_bound(self.next_scroll@, pressed),
            toggle_grab: any_bound(self.toggle_grab@, pressed),
        }
    }

    /// Whether the mode selector and the scroll selector are keyed
    /// independently.
    pub fn is_independent(&self) -> (independent: bool)
        ensures
            independent == self.independent(),
    {
        let mut i: usize = 0;
        while i < self.next_cam.len()
            invariant
                i <= self.next_cam@.len(),
                forall|j: int| 0 <= j < i ==> !self.next_scroll@.contains(#[trigger] self.next_cam@[j]),
            decreases self.next_cam@.len() - i,
        {
            if is_bound(self.next_scroll, self.next_cam[i]) {
                return false;
            }
            i += 1;
        }
        true
    }
}

/// Whether `key` is one of `codes`.
pub fn validate_key<T>(codes: &'static [T], key: &T) -> (found: bool)
    where
        T: PartialEq<T>,
    ensures
        T::obeys_eq_spec() ==> (found <==> exists|i: int|
            0 <= i < codes@.len() && (#[trigger] codes@[i]).eq_spec(key)),
        codes@.len() == 0 ==> !found,
{
    let mut i: usize = 0;
    while i < codes.len()
        invariant
            i <= codes@.len(),
            T::obeys_eq_spec() ==> forall|j: int| 0 <= j < i ==> !(#[trigger] codes@[j]).eq_spec(key),
        decreases codes@.len() - i,
    {
        if codes[i] == *key {
            return true;
        }
        i += 1;
    }
    false
}

/// Whether the key with number `key` is one of `codes`.
pub fn is_bound(codes: &'static [u32], key: u32) -> (found: bool)
    ensures
        found == codes@.contains(key),
{
    let found = validate_key(codes, &key);
    proof {
        if found {
            let i = choose|i: int| 0 <= i < codes@.len() && (#[trigger] codes@[i]).eq_spec(&key);
            assert(codes@[i] == key);
        }
        if codes@.contains(key) {
            let i = choose|i: int| 0 <= i < codes@.len() && codes@[i] == key;
            assert(codes@[i].eq_spec(&key));
        }
    }
    found
}

/// Whether one of the keys that went down this frame is among `codes`.
pub fn any_pressed(codes: &'static [u32], just_pressed: &[u32]) -> (hit: bool)
    ensures
        hit == any_bound(codes@, just_pressed@),
{
    let mut i: usize = 0;
    while i < just_pressed.len()
        invariant
            i <= just_pressed@.len(),
            forall|j: int| 0 <= j < i ==> !codes@.contains(#[trigger] just_pressed@[j]),
        decreases just_pressed@.len() - i,
    {
        if is_bound(codes, just_pressed[i]) {
            return true;
        }
        i += 1;
    }
    false
}

/// The actions that the keys that went down this frame ask for.
pub fn map_input(map: &KeyMap, just_pressed: &[u32]) -> (actions: Actions)
    ensures
        actions == map.actions(just_pressed@),
{
    Actions {
        next_cam: any_pressed(map.next_cam, just_pressed),
        next_scroll: any_pressed(map.next_scroll, just_pressed),
        toggle_grab: any_pressed(map.toggle_grab, just_pressed),
    }
}

/// Under independent bindings a frame in which a single key went down steps
/// at most one of the two selectors.
pub proof fn lemma_selectors_do_not_alias(map: KeyMap, key: u32)
    requires
        map.independent(),
    ensures
        !(map.actions(seq![key]).next_cam && map.actions(seq![key]).next_scroll),
{
    let pressed = seq![key];
    if map.actions(pressed).next_cam && map.actions(pressed).next_scroll {
        assert(pressed[0] == key);
        assert(map.next_cam@.contains(key));
        let i = choose|i: int| 0 <= i < map.next_cam@.len() && map.next_cam@[i] == key;
        assert(!map.next_scroll@.contains(map.next_cam@[i]));
    }
}

/// Steps the mode selector if a key bound to it went down this frame, and
/// says which mode is selected now if it did.
pub fn cycle_cam_state(
    settings: &MovementSettings,
    just_pressed: &[u32],
    config: &mut Config,
) -> (selected: Option<CameraMode>)
    requires
        old(config).wf(),
    ensures
        final(config).wf(),
        any_bound(settings.map.next_cam@, just_pressed@) ==> {
            &&& *final(config) == old(config).after_actions(1)
            &&& selected == Some(final(config).current_spec())
        },
        !any_bound(settings.map.next_cam@, just_pressed@) ==> {
            &&& *final(config) == *old(config)
            &&& selected.is_none()
        },
{
    if any_pressed(settings.map.next_cam, just_pressed) {
        config.advance(true);
        Some(config.current())
    } else {
        None
    }
}

} // verus!
