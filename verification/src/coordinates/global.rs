//! The global (world-scale) coordinate of one cell.

use crate::text::{point_text, render_point};
use vstd::prelude::*;

verus! {

/// The component type of a global coordinate: the full signed 32-bit range.
pub type GlobalCoordType = i32;

/// Absolute position of one cell in world space.
#[derive(PartialEq, Eq, Structural, Debug, Clone, Copy)]
pub struct GlobalCoord {
    pub x: GlobalCoordType,
    pub y: GlobalCoordType,
    pub z: GlobalCoordType,
}

/// The rendering of a global coordinate: `"GlobalCoord (x, y, z)"`.
pub open spec fn global_coord_text(g: GlobalCoord) -> Seq<char> {
    point_text("GlobalCoord"@, g.x as int, g.y as int, g.z as int)
}

impl GlobalCoord {
    /// The coordinate with every component equal to `x`, `y`, `z`.
    pub fn new(x: GlobalCoordType, y: GlobalCoordType, z: GlobalCoordType) -> (r: Self)
        ensures
            r == (GlobalCoord { x, y, z }),
    {
        Self { x, y, z }
    }

    /// The coordinate with every component at the type's minimum.
    pub fn min() -> (r: Self)
        ensures
            r == (GlobalCoord { x: i32::MIN, y: i32::MIN, z: i32::MIN }),
    {
        Self { x: i32::MIN, y: i32::MIN, z: i32::MIN }
    }

    /// The coordinate with every component at the type's maximum.
    pub fn max() -> (r: Self)
        ensures
            r == (GlobalCoord { x: i32::MAX, y: i32::MAX, z: i32::MAX }),
    {
        Self { x: i32::MAX, y: i32::MAX, z: i32::MAX }
    }

    /// Renders the coordinate as `"GlobalCoord (x, y, z)"`.
    pub fn to_string(&self) -> (s: String)
        ensures
            s@ == global_coord_text(*self),
    {
        render_point("GlobalCoord", self.x, self.y, self.z)
    }
}

} // verus!
