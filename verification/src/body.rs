//! The player's physical footprint and velocity.

use vstd::prelude::*;

verus! {

/// Linear velocity in milli-units per second.
#[derive(Clone, Copy, PartialEq, Eq, Structural, Debug)]
pub struct Velocity {
    pub x: i64,
    pub y: i64,
}

impl Velocity {
    /// A resting velocity.
    pub fn zero() -> (r: Velocity)
        ensures
            r.x == 0,
            r.y == 0,
    {
        Velocity { x: 0, y: 0 }
    }
}

/// The player's footprint: extents in milli-units and the handle of the
/// currently active solid collider entity. The handle is swapped, never
/// mutated in place, when the stance changes.
#[derive(Clone, Copy, PartialEq, Eq, Structural, Debug)]
pub struct Body {
    pub height: i64,
    pub width: i64,
    pub collider_ref: u64,
}

/// A body's extents are positive and small enough for every probe
/// computation to stay exact.
pub open spec fn spec_body_well_formed(b: Body) -> bool {
    &&& 0 < b.height <= 0x4000_0000
    &&& 0 < b.width <= 0x4000_0000
}

impl Body {
    /// A body of the given extents owning the collider `collider_ref`.
    pub fn new(height: i64, width: i64, collider_ref: u64) -> (r: Body)
        requires
            0 < height <= 0x4000_0000,
            0 < width <= 0x4000_0000,
        ensures
            r.height == height,
            r.width == width,
            r.collider_ref == collider_ref,
            spec_body_well_formed(r),
    {
        Body { height, width, collider_ref }
    }
}

} // verus!
