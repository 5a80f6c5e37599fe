use vstd::prelude::*;

verus! {

/// Number of fixed-point steps per scene unit: all lengths, offsets and gains
/// in this crate are integers counting thousandths of a unit.
pub const MILLI: i64 = 1000;

/// A vector in some body's local coordinate frame, in thousandths of a unit
/// per component.
#[derive(Clone, Copy, Debug, PartialEq, Eq, Structural)]
pub struct Vec3Fixed {
    pub x: i64,
    pub y: i64,
    pub z: i64,
}

impl Vec3Fixed {
    pub fn new(x: i64, y: i64, z: i64) -> (v: Vec3Fixed)
        ensures
            v.x == x,
            v.y == y,
            v.z == z,
    {
        Vec3Fixed { x, y, z }
    }

    /// The zero offset.
    pub fn zero() -> (v: Vec3Fixed)
        ensures
            v.x == 0,
            v.y == 0,
            v.z == 0,
    {
        Vec3Fixed { x: 0, y: 0, z: 0 }
    }

    /// An offset of `y` thousandths along the local up axis, the axis the
    /// capsule links of a chain are attached along.
    pub fn up(y: i64) -> (v: Vec3Fixed)
        ensures
            v.x == 0,
            v.y == y,
            v.z == 0,
    {
        Vec3Fixed { x: 0, y: y, z: 0 }
    }
}

/// An orientation as a fixed-point unit quaternion: each component counts
/// thousandths, so the identity rotation is `(0, 0, 0, 1000)`.  The engine's
/// solver may drift a stored rotation away from the identity; the inspection
/// pass overwrites it back.
#[derive(Clone, Copy, Debug, PartialEq, Eq, Structural)]
pub struct Rotation {
    pub x: i64,
    pub y: i64,
    pub z: i64,
    pub w: i64,
}

/// The identity orientation.
pub open spec fn rotation_identity() -> Rotation {
    Rotation { x: 0, y: 0, z: 0, w: MILLI }
}

impl Rotation {
    pub fn identity() -> (q: Rotation)
        ensures
            q == rotation_identity(),
    {
        Rotation { x: 0, y: 0, z: 0, w: MILLI }
    }
}

} // verus!
