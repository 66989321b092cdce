//! Placement of an entity on the playfield.

use vstd::prelude::*;

verus! {

/// One playfield unit, in the millionths that lengths are counted in.
pub const UNIT: i64 = 1_000_000;

/// A bound on the magnitude of a coordinate or an angle that leaves room
/// for one more time step within the range of the integers that hold them.
pub const REACH: i64 = 4_611_686_018_427_387_904;

/// Position and orientation of an entity: `x` and `y` in millionths of a
/// unit, `rotation` in microradians, counter-clockwise.
#[derive(Clone, Copy, Debug, PartialEq, Eq, Structural)]
pub struct Transform {
    pub x: i64,
    pub y: i64,
    pub rotation: i64,
}

impl Transform {
    /// The unrotated placement at `(x, y)`.
    pub open spec fn at(x: i64, y: i64) -> Transform {
        Transform { x, y, rotation: 0 }
    }

    /// Whether every component is within `REACH` of zero.
    pub open spec fn in_reach(self) -> bool {
        &&& -REACH <= self.x <= REACH
        &&& -REACH <= self.y <= REACH
        &&& -REACH <= self.rotation <= REACH
    }

    /// The unrotated placement at `(x, y)`.
    pub fn from_xy(x: i64, y: i64) -> (t: Transform)
        ensures
            t == Transform::at(x, y),
    {
        Transform { x, y, rotation: 0 }
    }
}

/// Square of the distance between the centres of two placements.
pub open spec fn distance_squared(a: Transform, b: Transform) -> int {
    (a.x - b.x) * (a.x - b.x) + (a.y - b.y) * (a.y - b.y)
}

/// The coordinate that lies `magnitude` whole units from zero, on the
/// negative side if `flip` is set.
pub open spec fn signed_units(magnitude: u32, flip: bool) -> int {
    if flip {
        -(magnitude * UNIT)
    } else {
        magnitude * UNIT
    }
}

/// Puts `magnitude` whole units on the side of zero that `flip` chooses.
pub fn signed_position(magnitude: u32, flip: bool) -> (x: i64)
    ensures
        x == signed_units(magnitude, flip),
{
    let distance: i64 = magnitude as i64 * UNIT;
    if flip {
        -distance
    } else {
        distance
    }
}

/// Distance covered at `speed` units per second in `dt` microseconds, in
/// millionths of a unit.
pub fn distance_covered(speed: u16, dt: u32) -> (amount: i64)
    ensures
        amount == speed * dt,
        0 <= amount <= 0xffff * 0xffff_ffff,
{
    assert(0 <= speed * dt <= 0xffff * 0xffff_ffff) by (nonlinear_arith)
        requires
            0 <= speed <= 0xffff,
            0 <= dt <= 0xffff_ffff,
    ;
    speed as i64 * dt as i64
}

/// Angle turned at `spin` radians per second in `dt` microseconds, in
/// microradians.
pub fn angle_turned(spin: i16, dt: u32) -> (amount: i64)
    ensures
        amount == spin * dt,
        -0x8000 * 0xffff_ffff <= amount <= 0x7fff * 0xffff_ffff,
{
    assert(-0x8000 * 0xffff_ffff <= spin * dt <= 0x7fff * 0xffff_ffff) by (nonlinear_arith)
        requires
            -0x8000 <= spin <= 0x7fff,
            0 <= dt <= 0xffff_ffff,
    ;
    spin as i64 * dt as i64
}

} // verus!
