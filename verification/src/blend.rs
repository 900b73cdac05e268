//! The damped approach of the camera's actual focus to the desired one.
use vstd::prelude::*;
use crate::fixed::{lemma_scaled_fraction, scale_by, scaled, SCALE};
use crate::vec3::{Point, Vec3};

verus! {

/// The radius of the dead zone, 0.2 units in millionths: a focus that is no
/// farther than this from where it should be is left alone.
pub const DEAD_ZONE: i64 = 200_000;

/// The share of the remaining way that the focus covers per second.
pub const BLEND_SPEED: i64 = 2;

/// Whether a difference is longer than the dead zone's radius.
pub open spec fn outside_dead_zone(delta: Point) -> bool {
    delta.norm_sq() > DEAD_ZONE * DEAD_ZONE
}

/// The fixed-point factor for a frame that took `dt` millionths of a second:
/// the blend speed times the frame time.
pub open spec fn blend_factor(dt: int) -> int {
    BLEND_SPEED * dt
}

/// The actual focus after one frame: unchanged inside the dead zone, else
/// moved by the difference times the blend factor.
pub open spec fn blend_spec(actual: Point, desired: Point, dt: int) -> Point {
    let delta = desired.minus(actual);
    if outside_dead_zone(delta) {
        actual.plus(delta.scaled(blend_factor(dt)))
    } else {
        actual
    }
}

/// Whether the difference with the given wide coordinates is longer than the
/// dead zone's radius.
fn is_outside_dead_zone(dx: i128, dy: i128, dz: i128) -> (outside: bool)
    ensures
        outside == outside_dead_zone(Point { x: dx as int, y: dy as int, z: dz as int }),
{
    let limit: i128 = DEAD_ZONE as i128;
    if dx > limit || dx < -limit || dy > limit || dy < -limit || dz > limit || dz < -limit {
        assert(dx * dx >= 0 && dy * dy >= 0 && dz * dz >= 0) by (nonlinear_arith);
        assert(dx > 200_000 || dx < -200_000 ==> dx * dx > 200_000 * 200_000) by (nonlinear_arith);
        assert(dy > 200_000 || dy < -200_000 ==> dy * dy > 200_000 * 200_000) by (nonlinear_arith);
        assert(dz > 200_000 || dz < -200_000 ==> dz * dz > 200_000 * 200_000) by (nonlinear_arith);
        true
    } else {
        assert(0 <= dx * dx <= 200_000 * 200_000) by (nonlinear_arith)
            requires
                -200_000 <= dx <= 200_000,
        ;
        assert(0 <= dy * dy <= 200_000 * 200_000) by (nonlinear_arith)
            requires
                -200_000 <= dy <= 200_000,
        ;
        assert(0 <= dz * dz <= 200_000 * 200_000) by (nonlinear_arith)
            requires
                -200_000 <= dz <= 200_000,
        ;
        dx * dx + dy * dy + dz * dz > limit * limit
    }
}

/// Moves the actual focus toward the desired one for a frame that took `dt`
/// millionths of a second.
///
/// Inside the dead zone the focus stays. Outside it every coordinate moves by
/// the difference times `BLEND_SPEED * dt`, rounded toward zero; a frame of
/// more than half a second carries the focus past the desired one. The result
/// is absent exactly where a coordinate of it leaves the range of `i64`.
pub fn blend(actual: Vec3, desired: Vec3, dt: u32) -> (r: Option<Vec3>)
    ensures
        blend_spec(actual@, desired@, dt as int).stored_as(r),
{
    let dx: i128 = desired.x as i128 - actual.x as i128;
    let dy: i128 = desired.y as i128 - actual.y as i128;
    let dz: i128 = desired.z as i128 - actual.z as i128;
    if !is_outside_dead_zone(dx, dy, dz) {
        return Some(actual);
    }
    let speed: i128 = BLEND_SPEED as i128;
    assert(speed == 2);
    let factor: i128 = speed * (dt as i128);
    let sx: i128 = scale_by(dx, factor);
    let sy: i128 = scale_by(dy, factor);
    let sz: i128 = scale_by(dz, factor);
    Vec3::from_wide(actual.x as i128 + sx, actual.y as i128 + sy, actual.z as i128 + sz)
}

/// The dead zone holds: a focus within two tenths of a unit of the desired
/// one is where it was after the frame, however long the frame took.
pub proof fn lemma_dead_zone_holds(actual: Point, desired: Point, dt: int)
    requires
        !outside_dead_zone(desired.minus(actual)),
    ensures
        blend_spec(actual, desired, dt) == actual,
{
}

/// A frame short enough that the blend factor stays below one never carries
/// the focus past the desired one: on every axis the new focus lies between
/// the old focus and the desired one, so it can be stored if both can.
pub proof fn lemma_blend_never_overshoots(actual: Point, desired: Point, dt: int)
    requires
        0 <= blend_factor(dt) <= SCALE,
    ensures
        ({
            let next = blend_spec(actual, desired, dt);
            &&& actual.x <= desired.x ==> actual.x <= next.x <= desired.x
            &&& actual.x >= desired.x ==> actual.x >= next.x >= desired.x
            &&& actual.y <= desired.y ==> actual.y <= next.y <= desired.y
            &&& actual.y >= desired.y ==> actual.y >= next.y >= desired.y
            &&& actual.z <= desired.z ==> actual.z <= next.z <= desired.z
            &&& actual.z >= desired.z ==> actual.z >= next.z >= desired.z
            &&& actual.fits() && desired.fits() ==> next.fits()
            &&& desired.minus(next).norm_sq() <= desired.minus(actual).norm_sq()
        }),
{
    let delta = desired.minus(actual);
    let k = blend_factor(dt);
    lemma_scaled_fraction(delta.x, k);
    lemma_scaled_fraction(delta.y, k);
    lemma_scaled_fraction(delta.z, k);
    let next = blend_spec(actual, desired, dt);
    let rest = desired.minus(next);
    lemma_square_shrinks(rest.x, delta.x);
    lemma_square_shrinks(rest.y, delta.y);
    lemma_square_shrinks(rest.z, delta.z);
}

/// Outside the dead zone, a frame whose blend factor is above zero and below
/// one brings the focus strictly closer to the desired one, provided the frame
/// moves the focus at all.
pub proof fn lemma_blend_approaches(actual: Point, desired: Point, dt: int)
    requires
        outside_dead_zone(desired.minus(actual)),
        0 < blend_factor(dt) < SCALE,
        blend_spec(actual, desired, dt) != actual,
    ensures
        desired.minus(blend_spec(actual, desired, dt)).norm_sq() < desired.minus(actual).norm_sq(),
{
    let delta = desired.minus(actual);
    let k = blend_factor(dt);
    lemma_scaled_fraction(delta.x, k);
    lemma_scaled_fraction(delta.y, k);
    lemma_scaled_fraction(delta.z, k);
    let next = blend_spec(actual, desired, dt);
    let rest = desired.minus(next);
    lemma_square_shrinks(rest.x, delta.x);
    lemma_square_shrinks(rest.y, delta.y);
    lemma_square_shrinks(rest.z, delta.z);
    assert(rest.x != delta.x || rest.y != delta.y || rest.z != delta.z);
}

/// Outside the dead zone every frame of at least five millionths of a second
/// moves the focus: some coordinate of the difference is long enough for its
/// share to round to a whole step.
pub proof fn lemma_blend_moves(actual: Point, desired: Point, dt: int)
    requires
        outside_dead_zone(desired.minus(actual)),
        dt >= 5,
    ensures
        blend_spec(actual, desired, dt) != actual,
{
    let delta = desired.minus(actual);
    let k = blend_factor(dt);
    assert(delta.x >= 115_471 || delta.x <= -115_471 || delta.y >= 115_471 || delta.y <= -115_471
        || delta.z >= 115_471 || delta.z <= -115_471) by {
        if -115_470 <= delta.x <= 115_470 && -115_470 <= delta.y <= 115_470 && -115_470 <= delta.z
            <= 115_470 {
            lemma_square_bounded(delta.x, 115_470);
            lemma_square_bounded(delta.y, 115_470);
            lemma_square_bounded(delta.z, 115_470);
        }
    }
    lemma_long_share_is_nonzero(delta.x, k);
    lemma_long_share_is_nonzero(delta.y, k);
    lemma_long_share_is_nonzero(delta.z, k);
}

/// A quantity that is between zero and another, on the same side of zero, has
/// no larger a square, and a smaller one if it is nearer to zero.
proof fn lemma_square_shrinks(inner: int, outer: int)
    requires
        (0 <= inner <= outer) || (outer <= inner <= 0),
    ensures
        inner * inner <= outer * outer,
        inner != outer ==> inner * inner < outer * outer,
{
    assert(inner * inner <= outer * outer && (inner != outer ==> inner * inner < outer * outer))
        by (nonlinear_arith)
        requires
            (0 <= inner <= outer) || (outer <= inner <= 0),
    ;
}

/// A quantity within `bound` of zero has a square of at most `bound` squared.
proof fn lemma_square_bounded(v: int, bound: int)
    requires
        -bound <= v <= bound,
    ensures
        v * v <= bound * bound,
{
    assert(v * v <= bound * bound) by (nonlinear_arith)
        requires
            -bound <= v <= bound,
    ;
}

/// A coordinate at least 115 471 steps long has a share that is not zero
/// under any factor of ten millionths or more.
proof fn lemma_long_share_is_nonzero(v: int, factor: int)
    requires
        factor >= 10,
    ensures
        v >= 115_471 ==> scaled(v, factor) > 0,
        v <= -115_471 ==> scaled(v, factor) < 0,
{
    let s: int = SCALE as int;
    if v >= 115_471 {
        assert(v * factor >= s) by (nonlinear_arith)
            requires
                v >= 115_471,
                factor >= 10,
                s == 1_000_000,
        ;
        assert((v * factor) / s > 0) by (nonlinear_arith)
            requires
                v * factor >= s,
                s > 0,
        ;
    }
    if v <= -115_471 {
        assert(-(v * factor) >= s) by (nonlinear_arith)
            requires
                v <= -115_471,
                factor >= 10,
                s == 1_000_000,
        ;
        assert((-(v * factor)) / s > 0) by (nonlinear_arith)
            requires
                -(v * factor) >= s,
                s > 0,
        ;
    }
}

} // verus!
