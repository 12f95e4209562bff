//! Fixed-point geometry: orientations as ZYX Euler angles in
//! thousandths of a degree, positions as integer world units.

use vstd::prelude::*;

verus! {

/// One full turn, in thousandths of a degree.
pub const FULL_TURN_MILLIDEG: u32 = 360_000;

/// An orientation decomposed as ZYX Euler angles, each in thousandths
/// of a degree. `yaw` is normalized into `[0, FULL_TURN_MILLIDEG)`.
#[derive(Clone, Copy, Debug, PartialEq, Eq, Structural)]
pub struct Orientation {
    pub roll: i32,
    pub yaw: u32,
    pub pitch: i32,
}

impl Orientation {
    /// A pure single-axis tilt: pitch only, no yaw or roll component.
    pub open spec fn pitch_only(pitch: i32) -> Orientation {
        Orientation { roll: 0, yaw: 0, pitch }
    }

    /// A pure single-axis turn: yaw only, no pitch or roll component.
    pub open spec fn yaw_only(yaw: u32) -> Orientation {
        Orientation { roll: 0, yaw, pitch: 0 }
    }

    /// The identity orientation.
    pub fn identity() -> (r: Orientation)
        ensures
            r == (Orientation { roll: 0, yaw: 0, pitch: 0 }),
    {
        Orientation { roll: 0, yaw: 0, pitch: 0 }
    }
}

/// A point or direction in fixed-point world units.
#[derive(Clone, Copy, Debug, PartialEq, Eq, Structural)]
pub struct Vec3Fixed {
    pub x: i64,
    pub y: i64,
    pub z: i64,
}

/// Bound on coordinates under which componentwise differences cannot
/// overflow an `i64`.
pub open spec fn coord_in_range(v: Vec3Fixed) -> bool {
    &&& -0x4000_0000_0000_0000 < v.x < 0x4000_0000_0000_0000
    &&& -0x4000_0000_0000_0000 < v.y < 0x4000_0000_0000_0000
    &&& -0x4000_0000_0000_0000 < v.z < 0x4000_0000_0000_0000
}

/// The componentwise difference `b - a`, as a mathematical value.
pub open spec fn vec3_diff(a: Vec3Fixed, b: Vec3Fixed) -> Vec3Fixed {
    Vec3Fixed { x: (b.x - a.x) as i64, y: (b.y - a.y) as i64, z: (b.z - a.z) as i64 }
}

/// Computes `b - a` componentwise.
pub fn vec3_sub(a: Vec3Fixed, b: Vec3Fixed) -> (r: Vec3Fixed)
    requires
        coord_in_range(a),
        coord_in_range(b),
    ensures
        r == vec3_diff(a, b),
{
    Vec3Fixed { x: b.x - a.x, y: b.y - a.y, z: b.z - a.z }
}

/// A placement of an entity in the world: a fixed-point position and
/// an orientation.
#[derive(Clone, Copy, Debug, PartialEq, Eq, Structural)]
pub struct Placement {
    pub position: Vec3Fixed,
    pub orientation: Orientation,
}

impl Placement {
    /// The placement at the world origin with the identity orientation.
    pub fn origin() -> (r: Placement)
        ensures
            r == (Placement {
                position: Vec3Fixed { x: 0, y: 0, z: 0 },
                orientation: Orientation { roll: 0, yaw: 0, pitch: 0 },
            }),
    {
        Placement {
            position: Vec3Fixed { x: 0, y: 0, z: 0 },
            orientation: Orientation { roll: 0, yaw: 0, pitch: 0 },
        }
    }
}

} // verus!
