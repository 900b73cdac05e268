//! Looking around with the mouse: the travel of a grabbed cursor becomes yaw
//! and pitch, and the pitch never reaches straight up or straight down.
use vstd::prelude::*;
use crate::error::CameraError;
use crate::fixed::{fits_i64, lemma_trunc_div_bounds, narrow, trunc_div};
use crate::settings::MovementSettings;

verus! {

/// The largest pitch in either direction, 1.54 radians in millionths: just
/// short of a quarter turn, so that the view never flips over.
pub const PITCH_LIMIT: i64 = 1_540_000;

/// The numerator of the fraction that stands for a degree in radians: half of
/// pi in billionths, over ninety billions.
pub const RADIANS_PER_DEGREE_NUM: i64 = 1_570_796_327;

/// The denominator of the fraction that stands for a degree in radians.
pub const RADIANS_PER_DEGREE_DEN: i64 = 90_000_000_000;

/// One report of mouse travel, in pixels.
#[derive(Clone, Copy, Debug, PartialEq, Eq, Structural)]
pub struct MouseMotion {
    /// The travel to the right.
    pub dx: i32,
    /// The travel downward.
    pub dy: i32,
}

/// What the look controller reads of the window: its extent in pixels and
/// whether the cursor is grabbed.
#[derive(Clone, Copy, Debug, PartialEq, Eq, Structural)]
pub struct WindowView {
    /// The window's width in pixels.
    pub width: u32,
    /// The window's height in pixels.
    pub height: u32,
    /// Whether the cursor is grabbed.
    pub cursor_locked: bool,
}

/// A yaw and a pitch in millionths of a radian. The rotation they stand for
/// is the yaw about the Y axis followed by the pitch about the X axis, in
/// that order, which keeps the view free of roll.
#[derive(Clone, Copy, Debug, PartialEq, Eq, Structural)]
pub struct LookAngles {
    /// The turn about the Y axis.
    pub yaw: i64,
    /// The turn about the X axis.
    pub pitch: i64,
}

/// A yaw and a pitch over unbounded integers.
pub struct Angles {
    /// The turn about the Y axis.
    pub yaw: int,
    /// The turn about the X axis.
    pub pitch: int,
}

/// What one frame of looking came to.
#[derive(Clone, Copy, Debug, PartialEq, Eq, Structural)]
pub struct LookOutcome {
    /// The rotation to give the camera, if any report was taken.
    pub rotation: Option<LookAngles>,
    /// How many of the reports were taken off the queue.
    pub consumed: usize,
}

/// The pitch held to the limit in both directions.
pub open spec fn clamp_pitch(pitch: int) -> int {
    if pitch < -PITCH_LIMIT {
        -PITCH_LIMIT as int
    } else if pitch > PITCH_LIMIT {
        PITCH_LIMIT as int
    } else {
        pitch
    }
}

/// The turn for a travel of `travel` pixels in a window `extent` pixels
/// across, in millionths of a radian: sensitivity times travel times extent
/// is the turn in millionths of a degree, which is brought to radians and
/// rounded toward zero.
pub open spec fn turn(sensitivity: int, travel: int, extent: int) -> int {
    trunc_div(
        sensitivity * travel * extent * RADIANS_PER_DEGREE_NUM,
        RADIANS_PER_DEGREE_DEN as int,
    )
}

impl Angles {
    /// The angles after one report: with the cursor grabbed both angles fall
    /// by the turn of the report, and in either case the pitch is clamped.
    pub open spec fn looked(self, sensitivity: int, window: WindowView, report: MouseMotion) -> Angles {
        if window.cursor_locked {
            Angles {
                yaw: self.yaw - turn(sensitivity, report.dx as int, window.width as int),
                pitch: clamp_pitch(
                    self.pitch - turn(sensitivity, report.dy as int, window.height as int),
                ),
            }
        } else {
            Angles { yaw: self.yaw, pitch: clamp_pitch(self.pitch) }
        }
    }

    /// The angles after all of `reports`, in order.
    pub open spec fn looked_all(
        self,
        sensitivity: int,
        window: WindowView,
        reports: Seq<MouseMotion>,
    ) -> Angles
        decreases reports.len(),
    {
        if reports.len() == 0 {
            self
        } else {
            self.looked_all(sensitivity, window, reports.drop_last()).looked(
                sensitivity,
                window,
                reports.last(),
            )
        }
    }

    /// Whether the machine can store the yaw after each of `reports`.
    pub open spec fn all_fit(self, sensitivity: int, window: WindowView, reports: Seq<MouseMotion>) -> bool
        decreases reports.len(),
    {
        if reports.len() == 0 {
            true
        } else {
            &&& self.all_fit(sensitivity, window, reports.drop_last())
            &&& fits_i64(self.looked_all(sensitivity, window, reports).yaw)
        }
    }

    /// Whether the pitch is within the limit.
    pub open spec fn pitch_in_limit(self) -> bool {
        -PITCH_LIMIT <= self.pitch <= PITCH_LIMIT
    }
}

/// The running yaw and pitch of the look controller.
#[derive(Clone, Copy, Debug)]
pub struct InputState {
    pitch: i64,
    yaw: i64,
}

impl InputState {
    /// The pitch is within the limit at all times.
    #[verifier::type_invariant]
    pub closed spec fn inv(&self) -> bool {
        -PITCH_LIMIT <= self.pitch <= PITCH_LIMIT
    }

    /// The yaw and the pitch.
    pub closed spec fn angles(&self) -> Angles {
        Angles { yaw: self.yaw as int, pitch: self.pitch as int }
    }

    /// Looking straight ahead.
    pub fn new() -> (state: InputState)
        ensures
            state.angles() == (Angles { yaw: 0, pitch: 0 }),
    {
        InputState { pitch: 0, yaw: 0 }
    }

    /// The pitch in millionths of a radian.
    pub fn pitch(&self) -> (pitch: i64)
        ensures
            pitch == self.angles().pitch,
            -PITCH_LIMIT <= pitch <= PITCH_LIMIT,
    {
        proof {
            use_type_invariant(self);
        }
        self.pitch
    }

    /// The yaw in millionths of a radian.
    pub fn yaw(&self) -> (yaw: i64)
        ensures
            yaw == self.angles().yaw,
    {
        self.yaw
    }
}

impl Default for InputState {
    /// Looking straight ahead.
    fn default() -> (state: InputState)
        ensures
            state.angles() == (Angles { yaw: 0, pitch: 0 }),
    {
        InputState::new()
    }
}

/// If the yaw fits after each of some reports, it fits after each of the
/// first `n` of them.
proof fn lemma_all_fit_prefix(
    start: Angles,
    sensitivity: int,
    window: WindowView,
    reports: Seq<MouseMotion>,
    n: int,
)
    requires
        0 <= n <= reports.len(),
        start.all_fit(sensitivity, window, reports),
    ensures
        start.all_fit(sensitivity, window, reports.take(n)),
    decreases reports.len(),
{
    if n == reports.len() {
        assert(reports.take(n) =~= reports);
    } else {
        assert(reports.drop_last().take(n) =~= reports.take(n));
        lemma_all_fit_prefix(start, sensitivity, window, reports.drop_last(), n);
    }
}

/// The pitch is within the limit after any run of reports that starts within
/// it, and after any run of at least one report wherever it starts.
pub proof fn lemma_pitch_stays_clamped(
    start: Angles,
    sensitivity: int,
    window: WindowView,
    reports: Seq<MouseMotion>,
)
    ensures
        start.pitch_in_limit() || reports.len() > 0 ==> start.looked_all(
            sensitivity,
            window,
            reports,
        ).pitch_in_limit(),
    decreases reports.len(),
{
    if reports.len() > 0 {
        lemma_pitch_stays_clamped(start, sensitivity, window, reports.drop_last());
    }
}

/// The turn for one axis of a report, exact and wide.
fn turn_of(sensitivity: u32, travel: i32, extent: u32) -> (r: i128)
    ensures
        r == turn(sensitivity as int, travel as int, extent as int),
        -0x4000_0000_0000_0000_0000_0000 <= r <= 0x4000_0000_0000_0000_0000_0000,
{
    let s: i128 = sensitivity as i128;
    let t: i128 = travel as i128;
    let e: i128 = extent as i128;
    assert(-0x8000_0000_0000_0000 <= s * t <= 0x8000_0000_0000_0000) by (nonlinear_arith)
        requires
            0 <= s <= 0xffff_ffff,
            -0x8000_0000 <= t <= 0x8000_0000,
    ;
    let degrees_by_pixel: i128 = s * t;
    assert(-0x8000_0000_0000_0000_0000_0000 <= degrees_by_pixel * e
        <= 0x8000_0000_0000_0000_0000_0000) by (nonlinear_arith)
        requires
            -0x8000_0000_0000_0000 <= degrees_by_pixel <= 0x8000_0000_0000_0000,
            0 <= e <= 0xffff_ffff,
    ;
    let degrees: i128 = degrees_by_pixel * e;
    let numerator: i128 = RADIANS_PER_DEGREE_NUM as i128;
    assert(numerator == 1_570_796_327);
    assert(-0x8000_0000_0000_0000_0000_0000 * 1_570_796_327 <= degrees * numerator
        <= 0x8000_0000_0000_0000_0000_0000 * 1_570_796_327);
    let scaled_up: i128 = degrees * numerator;
    proof {
        lemma_trunc_div_bounds(scaled_up as int, RADIANS_PER_DEGREE_DEN as int);
    }
    scaled_up / (RADIANS_PER_DEGREE_DEN as i128)
}

/// The pitch held to the limit, as a machine integer.
fn clamped(pitch: i128) -> (r: i64)
    ensures
        r == clamp_pitch(pitch as int),
        -PITCH_LIMIT <= r <= PITCH_LIMIT,
{
    if pitch < -(PITCH_LIMIT as i128) {
        -PITCH_LIMIT
    } else if pitch > PITCH_LIMIT as i128 {
        PITCH_LIMIT
    } else {
        pitch as i64
    }
}

/// Whether `r` and the angles `after` are what one frame of looking makes of
/// the angles `before`.
///
/// With `disable_look` set nothing is taken and nothing changes. Otherwise
/// the frame succeeds exactly where the yaw can be stored after each report;
/// it then takes every report, leaves the angles as they are after the last
/// one, and hands them out as the rotation if there was a report at all. A
/// frame that fails changes nothing.
pub open spec fn looks(
    before: Angles,
    after: Angles,
    settings: MovementSettings,
    window: WindowView,
    motion: Seq<MouseMotion>,
    r: Result<LookOutcome, CameraError>,
) -> bool {
    if settings.disable_look {
        &&& r == Ok::<LookOutcome, CameraError>(LookOutcome { rotation: None, consumed: 0 })
        &&& after == before
    } else {
        let end = before.looked_all(settings.sensitivity as int, window, motion);
        &&& r.is_ok() <==> before.all_fit(settings.sensitivity as int, window, motion)
        &&& r matches Ok(outcome) ==> {
            &&& after == end
            &&& outcome.consumed == motion.len()
            &&& motion.len() == 0 ==> outcome.rotation.is_none()
            &&& motion.len() > 0 ==> outcome.rotation == Some(
                LookAngles { yaw: end.yaw as i64, pitch: end.pitch as i64 },
            ) && fits_i64(end.yaw)
        }
        &&& r matches Err(e) ==> {
            &&& e == CameraError::OutOfRange
            &&& after == before
        }
    }
}

/// Turns the view by this frame's mouse travel.
///
/// `motion` holds the reports of mouse travel that are queued since the last
/// frame, oldest first. With `disable_look` set the controller is idle: no
/// report is taken and nothing changes. Otherwise every report is taken; each
/// one lowers yaw and pitch by its turn if the cursor is grabbed, and clamps
/// the pitch in any case. The rotation to give the camera is that of the
/// angles after the last report; without a report there is none to give. The
/// pitch is within `PITCH_LIMIT` of zero afterwards, whatever came in. The
/// call fails, and changes nothing, exactly where the yaw leaves the range of
/// `i64` after one of the reports.
pub fn player_look(
    settings: &MovementSettings,
    window: &WindowView,
    state: &mut InputState,
    motion: &[MouseMotion],
) -> (r: Result<LookOutcome, CameraError>)
    ensures
        final(state).angles().pitch_in_limit(),
        looks(old(state).angles(), final(state).angles(), *settings, *window, motion@, r),
{
    proof {
        use_type_invariant(&*state);
    }
    if settings.disable_look {
        return Ok(LookOutcome { rotation: None, consumed: 0 });
    }
    let ghost start = state.angles();
    let ghost sensitivity = settings.sensitivity as int;
    let mut yaw: i64 = state.yaw;
    let mut pitch: i64 = state.pitch;
    let mut i: usize = 0;
    assert(motion@.take(0) =~= Seq::<MouseMotion>::empty());
    while i < motion.len()
        invariant
            i <= motion@.len(),
            !settings.disable_look,
            sensitivity == settings.sensitivity as int,
            start.all_fit(sensitivity, *window, motion@.take(i as int)),
            start.looked_all(sensitivity, *window, motion@.take(i as int)) == (Angles {
                yaw: yaw as int,
                pitch: pitch as int,
            }),
            -PITCH_LIMIT <= pitch <= PITCH_LIMIT,
            start == old(state).angles(),
            *state == *old(state),
            old(state).angles().pitch_in_limit(),
        decreases motion@.len() - i,
    {
        let report = motion[i];
        proof {
            let upto = motion@.take(i as int + 1);
            assert(upto.drop_last() =~= motion@.take(i as int));
            assert(upto.last() == report);
            if start.all_fit(sensitivity, *window, motion@) {
                lemma_all_fit_prefix(start, sensitivity, *window, motion@, i as int + 1);
            }
        }
        if window.cursor_locked {
            let yaw_turn: i128 = turn_of(settings.sensitivity, report.dx, window.width);
            let pitch_turn: i128 = turn_of(settings.sensitivity, report.dy, window.height);
            match narrow(yaw as i128 - yaw_turn) {
                Some(v) => {
                    yaw = v;
                },
                None => {
                    return Err(CameraError::OutOfRange);
                },
            }
            pitch = clamped(pitch as i128 - pitch_turn);
        } else {
            pitch = clamped(pitch as i128);
        }
        i += 1;
    }
    assert(motion@.take(i as int) =~= motion@);
    state.yaw = yaw;
    state.pitch = pitch;
    let rotation = if motion.len() == 0 {
        None
    } else {
        Some(LookAngles { yaw, pitch })
    };
    Ok(LookOutcome { rotation, consumed: motion.len() })
}

} // verus!
