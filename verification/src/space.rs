//! Fixed-point world-space geometry.
//!
//! A coordinate of `1000` stands for one world unit, so positions are held
//! in thousandths of a unit and never touch floating point.

use vstd::prelude::*;

verus! {

/// Thousandths of a world unit per whole unit.
pub const MILLI: i64 = 1000;

/// A world-space position, each coordinate in thousandths of a unit.
#[derive(Clone, Copy, PartialEq, Eq, Structural, Debug)]
pub struct Position {
    pub x: i64,
    pub y: i64,
    pub z: i64,
}

impl Position {
    /// The point with the given coordinates, in thousandths of a unit.
    pub fn new(x: i64, y: i64, z: i64) -> (p: Position)
        ensures
            p == (Position { x, y, z }),
    {
        Position { x, y, z }
    }

    /// The origin.
    pub fn origin() -> (p: Position)
        ensures
            p == (Position { x: 0, y: 0, z: 0 }),
    {
        Position { x: 0, y: 0, z: 0 }
    }
}

/// A rotation as a quaternion with components in thousandths, so the
/// identity rotation is `(1000, 0, 0, 0)`. It is not required to stay
/// exactly normalized between ticks; the physics backend re-normalizes.
#[derive(Clone, Copy, PartialEq, Eq, Structural, Debug)]
pub struct Orientation {
    pub w: i64,
    pub x: i64,
    pub y: i64,
    pub z: i64,
}

impl Orientation {
    /// The identity rotation.
    pub fn identity() -> (q: Orientation)
        ensures
            q == (Orientation { w: 1000, x: 0, y: 0, z: 0 }),
    {
        Orientation { w: 1000, x: 0, y: 0, z: 0 }
    }
}

} // verus!
