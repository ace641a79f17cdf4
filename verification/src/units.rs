//! Fixed-point quantities.
//!
//! Every length, force, angle and ratio of this crate is an integer count of
//! thousandths of its unit: `1500` stands for one and a half.  Authored values
//! are 32 bits wide and derived values 64 bits wide, so that no derivation
//! made by this crate can leave its type.

use vstd::prelude::*;

verus! {

/// Thousandths in one whole unit.
pub const UNIT: i32 = 1000;

/// `a` divided by a positive `b`, rounded toward zero.
pub open spec fn toward_zero_div(a: int, b: int) -> int {
    if a >= 0 {
        a / b
    } else {
        -((-a) / b)
    }
}

/// Half of `x`, rounded toward zero.
pub open spec fn half(x: int) -> int {
    toward_zero_div(x, 2)
}

/// One and a half times `x`, rounded toward zero.
pub open spec fn three_halves(x: int) -> int {
    half(3 * x)
}

/// The sign of `x`: `-1`, `0` or `1`.
pub open spec fn sign(x: int) -> int {
    if x > 0 {
        1
    } else if x < 0 {
        -1
    } else {
        0
    }
}

/// An authored vector in thousandths.
#[derive(Clone, Copy, Debug, PartialEq, Eq, Structural)]
pub struct Vec3 {
    pub x: i32,
    pub y: i32,
    pub z: i32,
}

/// A derived position in thousandths.
#[derive(Clone, Copy, Debug, PartialEq, Eq, Structural)]
pub struct Point3 {
    pub x: i64,
    pub y: i64,
    pub z: i64,
}

impl Vec3 {
    /// The vector with the given components.
    pub fn new(x: i32, y: i32, z: i32) -> (v: Vec3)
        ensures
            v == (Vec3 { x, y, z }),
    {
        Vec3 { x, y, z }
    }

    /// The zero vector.
    pub fn zero() -> (v: Vec3)
        ensures
            v == (Vec3 { x: 0, y: 0, z: 0 }),
    {
        Vec3 { x: 0, y: 0, z: 0 }
    }

    /// The same vector as a position.
    pub open spec fn widen(self) -> Point3 {
        Point3 { x: self.x as i64, y: self.y as i64, z: self.z as i64 }
    }

    /// Widens each component, which loses nothing.
    pub fn to_point(self) -> (p: Point3)
        ensures
            p == self.widen(),
    {
        Point3 { x: self.x as i64, y: self.y as i64, z: self.z as i64 }
    }
}

impl Point3 {
    /// The position with the given coordinates.
    pub fn new(x: i64, y: i64, z: i64) -> (p: Point3)
        ensures
            p == (Point3 { x, y, z }),
    {
        Point3 { x, y, z }
    }

    /// The origin.
    pub fn origin() -> (p: Point3)
        ensures
            p == (Point3 { x: 0, y: 0, z: 0 }),
    {
        Point3 { x: 0, y: 0, z: 0 }
    }
}

/// Computes [`sign`] of a derived quantity.
pub fn sign_of(x: i64) -> (s: i64)
    ensures
        s == sign(x as int),
{
    if x > 0 {
        1
    } else if x < 0 {
        -1
    } else {
        0
    }
}

} // verus!
