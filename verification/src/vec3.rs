//! Points of the scene: a machine vector of three fixed-point coordinates and
//! the mathematical point it stands for.
use vstd::prelude::*;
use crate::fixed::{fits_i64, lemma_scaled_fraction, lemma_trunc_div_multiple, narrow, scale_by, scaled, SCALE};

verus! {

/// A point of space with unbounded integer coordinates, in millionths of a
/// world unit. Contracts compute on these; what the machine stores is a `Vec3`.
pub struct Point {
    /// To the right.
    pub x: int,
    /// Up.
    pub y: int,
    /// Toward the viewer.
    pub z: int,
}

impl Point {
    /// The point all of whose coordinates are zero.
    pub open spec fn origin() -> Point {
        Point { x: 0, y: 0, z: 0 }
    }

    /// The coordinate-wise sum.
    pub open spec fn plus(self, other: Point) -> Point {
        Point { x: self.x + other.x, y: self.y + other.y, z: self.z + other.z }
    }

    /// The coordinate-wise difference: the way from `other` to `self`.
    pub open spec fn minus(self, other: Point) -> Point {
        Point { x: self.x - other.x, y: self.y - other.y, z: self.z - other.z }
    }

    /// Every coordinate times the fixed-point factor, rounded toward zero.
    pub open spec fn scaled(self, factor: int) -> Point {
        Point {
            x: crate::fixed::scaled(self.x, factor),
            y: crate::fixed::scaled(self.y, factor),
            z: crate::fixed::scaled(self.z, factor),
        }
    }

    /// The square of the Euclidean length.
    pub open spec fn norm_sq(self) -> int {
        self.x * self.x + self.y * self.y + self.z * self.z
    }

    /// The point reached from `self` after the fraction `t` of the way to
    /// `other`; `t` may exceed one, which carries past `other`.
    pub open spec fn lerp(self, other: Point, t: int) -> Point {
        self.plus(other.minus(self).scaled(t))
    }

    /// Whether every coordinate can be stored in an `i64`.
    pub open spec fn fits(self) -> bool {
        fits_i64(self.x) && fits_i64(self.y) && fits_i64(self.z)
    }

    /// The vector that stores this point, where it fits.
    pub open spec fn stored(self) -> Vec3 {
        Vec3 { x: self.x as i64, y: self.y as i64, z: self.z as i64 }
    }

    /// Whether `r` stores this point: exactly, where it fits, and not at all
    /// where it does not.
    pub open spec fn stored_as(self, r: Option<Vec3>) -> bool {
        match r {
            Some(v) => self.fits() && v@ == self,
            None => !self.fits(),
        }
    }
}

/// A point of the scene as the machine holds it: three coordinates in
/// millionths of a world unit.
#[derive(Clone, Copy, Debug, PartialEq, Eq, Structural)]
pub struct Vec3 {
    /// To the right.
    pub x: i64,
    /// Up.
    pub y: i64,
    /// Toward the viewer.
    pub z: i64,
}

impl View for Vec3 {
    type V = Point;

    open spec fn view(&self) -> Point {
        Point { x: self.x as int, y: self.y as int, z: self.z as int }
    }
}

impl Vec3 {
    /// The vector with the given coordinates.
    pub fn new(x: i64, y: i64, z: i64) -> (v: Vec3)
        ensures
            v == (Vec3 { x, y, z }),
    {
        Vec3 { x, y, z }
    }

    /// The origin of the scene.
    pub fn zero() -> (v: Vec3)
        ensures
            v@ == Point::origin(),
    {
        Vec3 { x: 0, y: 0, z: 0 }
    }

    /// The vector of three wide coordinates, where each fits.
    pub(crate) fn from_wide(x: i128, y: i128, z: i128) -> (r: Option<Vec3>)
        ensures
            (Point { x: x as int, y: y as int, z: z as int }).stored_as(r),
    {
        match (narrow(x), narrow(y), narrow(z)) {
            (Some(x), Some(y), Some(z)) => Some(Vec3 { x, y, z }),
            _ => None,
        }
    }

    /// The sum of two vectors, where it can be stored.
    pub fn checked_add(self, other: Vec3) -> (r: Option<Vec3>)
        ensures
            self@.plus(other@).stored_as(r),
    {
        Vec3::from_wide(
            self.x as i128 + other.x as i128,
            self.y as i128 + other.y as i128,
            self.z as i128 + other.z as i128,
        )
    }

    /// The point the fraction `t` of the way from `self` to `other`, where it
    /// can be stored. `t` is in millionths; beyond `SCALE` the result lies past
    /// `other`.
    pub fn lerp(self, other: Vec3, t: u32) -> (r: Option<Vec3>)
        ensures
            self@.lerp(other@, t as int).stored_as(r),
    {
        let x: i128 = lerp_axis(self.x, other.x, t);
        let y: i128 = lerp_axis(self.y, other.y, t);
        let z: i128 = lerp_axis(self.z, other.z, t);
        Vec3::from_wide(x, y, z)
    }
}

/// One coordinate of `lerp`, exact and wide.
fn lerp_axis(a: i64, b: i64, t: u32) -> (r: i128)
    ensures
        r == a + scaled(b - a, t as int),
{
    let way: i128 = b as i128 - a as i128;
    let part: i128 = scale_by(way, t as i128);
    a as i128 + part
}

/// A lerp by zero stays at the start, and a lerp by one arrives exactly at
/// the end.
pub proof fn lemma_lerp_endpoints(a: Point, b: Point)
    ensures
        a.lerp(b, 0) == a,
        a.lerp(b, SCALE as int) == b,
{
    let d = b.minus(a);
    lemma_trunc_div_multiple(d.x, SCALE as int);
    lemma_trunc_div_multiple(d.y, SCALE as int);
    lemma_trunc_div_multiple(d.z, SCALE as int);
    assert(d.x * 0 == 0 && d.y * 0 == 0 && d.z * 0 == 0);
}

/// For a factor from zero to one, every coordinate of the lerp lies between
/// the two ends, so the lerp of two stored points can be stored.
pub proof fn lemma_lerp_between(a: Point, b: Point, t: int)
    requires
        0 <= t <= SCALE,
    ensures
        a.x <= b.x ==> a.x <= a.lerp(b, t).x <= b.x,
        a.x >= b.x ==> a.x >= a.lerp(b, t).x >= b.x,
        a.y <= b.y ==> a.y <= a.lerp(b, t).y <= b.y,
        a.y >= b.y ==> a.y >= a.lerp(b, t).y >= b.y,
        a.z <= b.z ==> a.z <= a.lerp(b, t).z <= b.z,
        a.z >= b.z ==> a.z >= a.lerp(b, t).z >= b.z,
        a.fits() && b.fits() ==> a.lerp(b, t).fits(),
{
    let d = b.minus(a);
    lemma_scaled_fraction(d.x, t);
    lemma_scaled_fraction(d.y, t);
    lemma_scaled_fraction(d.z, t);
}

} // verus!
