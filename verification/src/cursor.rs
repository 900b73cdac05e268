//! The cursor's grab: held inside the window and hidden while the mouse turns
//! the camera, free and visible otherwise.
use vstd::prelude::*;
use crate::input::{any_bound, any_pressed};
use crate::settings::KeyMap;

verus! {

/// What the window says of its cursor.
#[derive(Clone, Copy, Debug, PartialEq, Eq, Structural)]
pub struct CursorState {
    /// The cursor is held inside the window.
    pub locked: bool,
    /// The cursor is drawn.
    pub visible: bool,
}

impl CursorState {
    /// The state with both the lock and the visibility flipped.
    pub open spec fn toggled(self) -> CursorState {
        CursorState { locked: !self.locked, visible: !self.visible }
    }
}

/// Grabs the cursor if it is free and frees it if it is grabbed: the lock and
/// the visibility are both flipped.
pub fn toggle_grab_cursor(cursor: &mut CursorState)
    ensures
        *final(cursor) == old(cursor).toggled(),
{
    cursor.locked = !cursor.locked;
    cursor.visible = !cursor.visible;
}

/// Toggles the cursor's grab if a key bound to that went down this frame, and
/// says whether it did.
pub fn cursor_grab(map: &KeyMap, just_pressed: &[u32], cursor: &mut CursorState) -> (toggled: bool)
    ensures
        toggled == any_bound(map.toggle_grab@, just_pressed@),
        toggled ==> *final(cursor) == old(cursor).toggled(),
        !toggled ==> *final(cursor) == *old(cursor),
{
    if any_pressed(map.toggle_grab, just_pressed) {
        toggle_grab_cursor(cursor);
        true
    } else {
        false
    }
}

} // verus!
