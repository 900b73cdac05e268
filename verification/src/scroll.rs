//! The scroll wheel: which tunable it adjusts, and by how much per notch.
use vstd::prelude::*;
use crate::cycle::{cycle_next, index_after, lemma_cycle_closes, lemma_index_after, next_index};
use crate::error::CameraError;
use crate::fixed::{fits_i64, fits_u32, magnitude, narrow, trunc_div};
use crate::input::{any_bound, any_pressed};
use crate::settings::{KeyMap, MovementSettings, PlayerSettings};

verus! {

/// The tunable that the scroll wheel adjusts, in the order in which the
/// selector steps through them.
#[derive(Clone, Copy, Debug, PartialEq, Eq, Hash, Structural)]
pub enum ScrollTarget {
    /// The speed of the free camera.
    MovementSpeed,
    /// The camera's field of view.
    Zoom,
    /// The mouse sensitivity.
    Sensitivity,
    /// The lerp factor between the player and the second target.
    Lerp,
    /// Whether the player moves along the camera's forward direction.
    CamForwardToggle,
}

/// How many scroll targets there are.
pub const SCROLL_TARGETS: usize = 5;

/// A wheel travel of one unit changes the speed by a tenth of a unit.
pub const SPEED_NOTCH: i64 = 10;

/// A wheel travel of one unit changes the field of view by a hundredth of a radian.
pub const ZOOM_NOTCH: i64 = 100;

/// A wheel travel of one unit changes the sensitivity by a millionth.
pub const SENSITIVITY_NOTCH: i64 = 1_000_000;

/// A wheel travel of one unit changes the lerp factor by a hundredth.
pub const LERP_NOTCH: i64 = 100;

/// A wheel travel above a hundredth of a unit flips the forward lock.
pub const TOGGLE_THRESHOLD: i64 = 10_000;

impl ScrollTarget {
    /// The place of this target in the selector's order.
    pub open spec fn index_spec(self) -> int {
        match self {
            ScrollTarget::MovementSpeed => 0,
            ScrollTarget::Zoom => 1,
            ScrollTarget::Sensitivity => 2,
            ScrollTarget::Lerp => 3,
            ScrollTarget::CamForwardToggle => 4,
        }
    }

    /// The target at a place of the selector's order.
    pub open spec fn at(index: int) -> ScrollTarget {
        if index == 0 {
            ScrollTarget::MovementSpeed
        } else if index == 1 {
            ScrollTarget::Zoom
        } else if index == 2 {
            ScrollTarget::Sensitivity
        } else if index == 3 {
            ScrollTarget::Lerp
        } else {
            ScrollTarget::CamForwardToggle
        }
    }

    /// The target after this one, the first after the last.
    pub open spec fn next_spec(self) -> ScrollTarget {
        ScrollTarget::at(next_index(self.index_spec(), SCROLL_TARGETS as int))
    }

    /// The target selected after `steps` steps from this one.
    pub open spec fn after(self, steps: nat) -> ScrollTarget {
        ScrollTarget::at(index_after(self.index_spec(), SCROLL_TARGETS as int, steps))
    }

    /// The place of this target in the selector's order.
    pub fn index(self) -> (i: usize)
        ensures
            i == self.index_spec(),
            i < SCROLL_TARGETS,
    {
        match self {
            ScrollTarget::MovementSpeed => 0,
            ScrollTarget::Zoom => 1,
            ScrollTarget::Sensitivity => 2,
            ScrollTarget::Lerp => 3,
            ScrollTarget::CamForwardToggle => 4,
        }
    }

    /// The target at a place of the selector's order, if there is such a
    /// place.
    pub fn from_index(index: usize) -> (t: Option<ScrollTarget>)
        ensures
            index < SCROLL_TARGETS ==> t == Some(ScrollTarget::at(index as int)),
            index >= SCROLL_TARGETS ==> t.is_none(),
            t matches Some(target) ==> target.index_spec() == index,
    {
        if index == 0 {
            Some(ScrollTarget::MovementSpeed)
        } else if index == 1 {
            Some(ScrollTarget::Zoom)
        } else if index == 2 {
            Some(ScrollTarget::Sensitivity)
        } else if index == 3 {
            Some(ScrollTarget::Lerp)
        } else if index == 4 {
            Some(ScrollTarget::CamForwardToggle)
        } else {
            None
        }
    }

    /// The target after this one, the first after the last.
    pub fn next(self) -> (t: ScrollTarget)
        ensures
            t == self.next_spec(),
    {
        match ScrollTarget::from_index(cycle_next(self.index(), SCROLL_TARGETS)) {
            Some(target) => target,
            None => self,
        }
    }
}

/// Steps the scroll selector if a key bound to it went down this frame, and
/// says which target is selected now if it did.
pub fn switch_scroll_type(map: &KeyMap, just_pressed: &[u32], scroll_type: &mut ScrollTarget) -> (selected:
    Option<ScrollTarget>)
    ensures
        any_bound(map.next_scroll@, just_pressed@) ==> {
            &&& *final(scroll_type) == old(scroll_type).next_spec()
            &&& selected == Some(*final(scroll_type))
        },
        !any_bound(map.next_scroll@, just_pressed@) ==> {
            &&& *final(scroll_type) == *old(scroll_type)
            &&& selected.is_none()
        },
{
    if any_pressed(map.next_scroll, just_pressed) {
        *scroll_type = scroll_type.next();
        Some(*scroll_type)
    } else {
        None
    }
}

/// Each further step of the selector selects the target after the one that
/// was selected.
pub proof fn lemma_scroll_step(start: ScrollTarget, steps: nat)
    ensures
        start.after(0) == start,
        start.after(steps + 1) == start.after(steps).next_spec(),
{
    lemma_index_after(start.index_spec(), SCROLL_TARGETS as int, steps);
}

/// Cyclic closure: five steps of the selector lead back to the start from
/// every target.
pub proof fn lemma_scroll_cycle_closes(start: ScrollTarget)
    ensures
        start.after(SCROLL_TARGETS as nat) == start,
{
    lemma_cycle_closes(start.index_spec(), SCROLL_TARGETS as int);
}

/// What the wheel can adjust, over unbounded integers: the speed, the
/// sensitivity and the lerp factor in millionths, the field of view in
/// millionths of a radian, and the forward lock.
pub struct Dials {
    /// The speed of the free camera.
    pub speed: int,
    /// The mouse sensitivity.
    pub sensitivity: int,
    /// The lerp factor.
    pub lerp: int,
    /// The field of view.
    pub fov: int,
    /// The forward lock.
    pub cam_fwd: bool,
}

impl Dials {
    /// Whether the machine can store every dial.
    pub open spec fn fits(self) -> bool {
        &&& fits_i64(self.speed)
        &&& fits_u32(self.sensitivity)
        &&& fits_u32(self.lerp)
        &&& fits_u32(self.fov)
    }

    /// The dials after the wheel travelled `y` millionths with `target`
    /// selected: the selected dial moves by the travel divided by its notch,
    /// the field of view against the travel, and the result's sign is
    /// dropped; the forward lock flips if the travel is above the threshold.
    pub open spec fn turned(self, target: ScrollTarget, y: int) -> Dials {
        match target {
            ScrollTarget::MovementSpeed => Dials {
                speed: magnitude(self.speed + trunc_div(y, SPEED_NOTCH as int)),
                ..self
            },
            ScrollTarget::Zoom => Dials {
                fov: magnitude(self.fov - trunc_div(y, ZOOM_NOTCH as int)),
                ..self
            },
            ScrollTarget::Sensitivity => Dials {
                sensitivity: magnitude(self.sensitivity + trunc_div(y, SENSITIVITY_NOTCH as int)),
                ..self
            },
            ScrollTarget::Lerp => Dials {
                lerp: magnitude(self.lerp + trunc_div(y, LERP_NOTCH as int)),
                ..self
            },
            ScrollTarget::CamForwardToggle => Dials {
                cam_fwd: if y > TOGGLE_THRESHOLD {
                    !self.cam_fwd
                } else {
                    self.cam_fwd
                },
                ..self
            },
        }
    }

    /// The dials after all of `events`, in order.
    pub open spec fn turned_all(self, target: ScrollTarget, events: Seq<i64>) -> Dials
        decreases events.len(),
    {
        if events.len() == 0 {
            self
        } else {
            self.turned_all(target, events.drop_last()).turned(target, events.last() as int)
        }
    }

    /// Whether the machine can store the dials after each of `events`.
    pub open spec fn all_fit(self, target: ScrollTarget, events: Seq<i64>) -> bool
        decreases events.len(),
    {
        if events.len() == 0 {
            true
        } else {
            self.all_fit(target, events.drop_last()) && self.turned_all(target, events).fits()
        }
    }
}

/// The dials as the settings and the camera hold them.
pub open spec fn dials_of(settings: MovementSettings, p_settings: PlayerSettings, fov: u32) -> Dials {
    Dials {
        speed: settings.speed as int,
        sensitivity: settings.sensitivity as int,
        lerp: settings.lerp as int,
        fov: fov as int,
        cam_fwd: p_settings.cam_fwd,
    }
}

/// If the dials fit after each of some events, they fit after each of the
/// first `n` of them.
proof fn lemma_all_fit_prefix(start: Dials, target: ScrollTarget, events: Seq<i64>, n: int)
    requires
        0 <= n <= events.len(),
        start.all_fit(target, events),
    ensures
        start.all_fit(target, events.take(n)),
    decreases events.len(),
{
    if n == events.len() {
        assert(events.take(n) =~= events);
    } else {
        assert(events.drop_last().take(n) =~= events.take(n));
        lemma_all_fit_prefix(start, target, events.drop_last(), n);
    }
}

/// The value of `v` as a `u32`, if it is one.
fn narrow_u32(v: i128) -> (r: Option<u32>)
    ensures
        fits_u32(v as int) ==> r == Some(v as u32),
        !fits_u32(v as int) ==> r.is_none(),
{
    if v < 0 || v > 4_294_967_295 {
        None
    } else {
        Some(v as u32)
    }
}

/// The distance of `value + step` from zero.
fn turn_dial(value: i128, step: i128) -> (r: i128)
    requires
        -0x1_0000_0000_0000_0000 <= value <= 0x1_0000_0000_0000_0000,
        -0x1_0000_0000_0000_0000 <= step <= 0x1_0000_0000_0000_0000,
    ensures
        r == magnitude(value + step),
{
    let sum: i128 = value + step;
    if sum < 0 {
        -sum
    } else {
        sum
    }
}

/// Applies this frame's wheel travel to the selected tunable.
///
/// `events` are the wheel's travels since the last frame, in millionths and in
/// the order in which they came; `fov` is the camera's field of view in
/// millionths of a radian, and the new one is returned. Each event moves the
/// selected dial as `Dials::turned` says. The call fails, and changes nothing,
/// exactly where a dial leaves the range of its machine type after one of the
/// events.
pub fn scroll(
    settings: &mut MovementSettings,
    p_settings: &mut PlayerSettings,
    scroll_type: ScrollTarget,
    fov: u32,
    events: &[i64],
) -> (r: Result<u32, CameraError>)
    ensures
        r.is_ok() <==> dials_of(*old(settings), *old(p_settings), fov).all_fit(scroll_type, events@),
        r matches Ok(new_fov) ==> {
            let end = dials_of(*old(settings), *old(p_settings), fov).turned_all(
                scroll_type,
                events@,
            );
            &&& *final(settings) == (MovementSettings {
                speed: end.speed as i64,
                sensitivity: end.sensitivity as u32,
                lerp: end.lerp as u32,
                ..*old(settings)
            })
            &&& *final(p_settings) == (PlayerSettings { cam_fwd: end.cam_fwd })
            &&& new_fov == end.fov
            &&& end.fits()
        },
        r matches Err(e) ==> {
            &&& e == CameraError::OutOfRange
            &&& *final(settings) == *old(settings)
            &&& *final(p_settings) == *old(p_settings)
        },
{
    let ghost start = dials_of(*settings, *p_settings, fov);
    let mut speed: i64 = settings.speed;
    let mut sensitivity: u32 = settings.sensitivity;
    let mut lerp: u32 = settings.lerp;
    let mut new_fov: u32 = fov;
    let mut cam_fwd: bool = p_settings.cam_fwd;
    let mut i: usize = 0;
    assert(events@.take(0) =~= Seq::<i64>::empty());
    while i < events.len()
        invariant
            i <= events@.len(),
            start.all_fit(scroll_type, events@.take(i as int)),
            start.turned_all(scroll_type, events@.take(i as int)) == (Dials {
                speed: speed as int,
                sensitivity: sensitivity as int,
                lerp: lerp as int,
                fov: new_fov as int,
                cam_fwd,
            }),
            start == dials_of(*old(settings), *old(p_settings), fov),
            *settings == *old(settings),
            *p_settings == *old(p_settings),
        decreases events@.len() - i,
    {
        let y: i64 = events[i];
        let ghost before = start.turned_all(scroll_type, events@.take(i as int));
        proof {
            let upto = events@.take(i as int + 1);
            assert(upto.drop_last() =~= events@.take(i as int));
            assert(upto.last() == y);
            assert(start.turned_all(scroll_type, upto) == before.turned(scroll_type, y as int));
            if start.all_fit(scroll_type, events@) {
                lemma_all_fit_prefix(start, scroll_type, events@, i as int + 1);
            }
        }
        match scroll_type {
            ScrollTarget::MovementSpeed => {
                match narrow(turn_dial(speed as i128, (y / SPEED_NOTCH) as i128)) {
                    Some(v) => {
                        speed = v;
                    },
                    None => {
                        return Err(CameraError::OutOfRange);
                    },
                }
            },
            ScrollTarget::Zoom => {
                match narrow_u32(turn_dial(new_fov as i128, -((y / ZOOM_NOTCH) as i128))) {
                    Some(v) => {
                        new_fov = v;
                    },
                    None => {
                        return Err(CameraError::OutOfRange);
                    },
                }
            },
            ScrollTarget::Sensitivity => {
                match narrow_u32(turn_dial(sensitivity as i128, (y / SENSITIVITY_NOTCH) as i128)) {
                    Some(v) => {
                        sensitivity = v;
                    },
                    None => {
                        return Err(CameraError::OutOfRange);
                    },
                }
            },
            ScrollTarget::Lerp => {
                match narrow_u32(turn_dial(lerp as i128, (y / LERP_NOTCH) as i128)) {
                    Some(v) => {
                        lerp = v;
                    },
                    None => {
                        return Err(CameraError::OutOfRange);
                    },
                }
            },
            ScrollTarget::CamForwardToggle => {
                if y > TOGGLE_THRESHOLD {
                    cam_fwd = !cam_fwd;
                }
            },
        }
        i += 1;
    }
    assert(events@.take(i as int) =~= events@);
    settings.speed = speed;
    settings.sensitivity = sensitivity;
    settings.lerp = lerp;
    p_settings.cam_fwd = cam_fwd;
    Ok(new_fov)
}

} // verus!
