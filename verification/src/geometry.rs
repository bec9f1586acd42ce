//! Axis-aligned probe geometry.
//!
//! Behaviors test for hits by asking the embedding to run a spatial query
//! with a rectangle, a center position and a layer filter. The rectangle
//! arithmetic itself is exact, in milli-units.

use vstd::prelude::*;

use crate::collision_groups::SpatialQueryFilter;

verus! {

/// Coordinates and extents handed to the spatial query stay below this
/// bound, which keeps every overlap computation exact.
pub const COORD_LIMIT: i64 = 0x100_0000_0000;

/// An axis-aligned rectangle by its full extents, milli-units.
#[derive(Clone, Copy, PartialEq, Eq, Structural, Debug)]
pub struct Rect {
    pub width: i64,
    pub height: i64,
}

/// A hit-probe request: run a spatial query with `rect` centered at
/// `(x, y)`, restricted to the layers of `filter`.
#[derive(Clone, Copy, PartialEq, Eq, Structural, Debug)]
pub struct Probe {
    pub rect: Rect,
    pub x: i64,
    pub y: i64,
    pub filter: SpatialQueryFilter,
}

/// True when the two rectangles intersect with positive area.
pub open spec fn spec_rects_overlap(
    ax: int,
    ay: int,
    a: Rect,
    bx: int,
    by: int,
    b: Rect,
) -> bool {
    &&& 2 * crate::fixed::spec_abs(ax - bx) < a.width + b.width
    &&& 2 * crate::fixed::spec_abs(ay - by) < a.height + b.height
}

/// Whether the rectangle `a` centered at `(ax, ay)` and the rectangle `b`
/// centered at `(bx, by)` intersect with positive area.
pub fn rects_overlap(ax: i64, ay: i64, a: Rect, bx: i64, by: i64, b: Rect) -> (r: bool)
    requires
        -COORD_LIMIT <= ax <= COORD_LIMIT,
        -COORD_LIMIT <= ay <= COORD_LIMIT,
        -COORD_LIMIT <= bx <= COORD_LIMIT,
        -COORD_LIMIT <= by <= COORD_LIMIT,
        0 <= a.width <= COORD_LIMIT,
        0 <= a.height <= COORD_LIMIT,
        0 <= b.width <= COORD_LIMIT,
        0 <= b.height <= COORD_LIMIT,
    ensures
        r == spec_rects_overlap(ax as int, ay as int, a, bx as int, by as int, b),
{
    let dx: i64 = if ax >= bx {
        ax - bx
    } else {
        bx - ax
    };
    let dy: i64 = if ay >= by {
        ay - by
    } else {
        by - ay
    };
    2 * dx < a.width + b.width && 2 * dy < a.height + b.height
}

} // verus!
