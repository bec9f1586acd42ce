//! Collision layer policy.
//!
//! Layers are named bits of a `u32` mask. Two logical channels exist:
//! solid collision, between the player's collider and the environment, and
//! one-way hit detection between hitboxes and hurtboxes. A collider moved
//! to the inactive layer collides with nothing.

use vstd::prelude::*;

verus! {

pub const NONE: u32 = 0;
pub const INACTIVE: u32 = 1;
pub const PLAYER: u32 = 2;
pub const ENEMY: u32 = 4;
pub const ENVIRONMENT: u32 = 8;
pub const COLLIDER: u32 = 16;

/// A collider's layer memberships and the layers it collides with.
#[derive(Clone, Copy, PartialEq, Eq, Structural, Debug)]
pub struct CollisionLayers {
    pub memberships: u32,
    pub filters: u32,
}

/// A mask restricting a spatial query to colliders on the given layers.
#[derive(Clone, Copy, PartialEq, Eq, Structural, Debug)]
pub struct SpatialQueryFilter {
    pub mask: u32,
}

/// Namespace for the layer assignments the controller uses.
pub struct CollisionGroup {}

impl CollisionGroup {
    /// The layers of a shelved collider: member of the inactive layer,
    /// colliding with nothing.
    pub fn inactive() -> (r: CollisionLayers)
        ensures
            r.memberships == INACTIVE,
            r.filters == NONE,
    {
        CollisionLayers { memberships: INACTIVE, filters: NONE }
    }

    /// The layers of level geometry: collides with player colliders.
    pub fn environment() -> (r: CollisionLayers)
        ensures
            r.memberships == ENVIRONMENT,
            r.filters == COLLIDER,
    {
        CollisionLayers { memberships: ENVIRONMENT, filters: COLLIDER }
    }

    /// The layers of the player's active solid collider: collides with the
    /// environment.
    pub fn collider() -> (r: CollisionLayers)
        ensures
            r.memberships == COLLIDER,
            r.filters == ENVIRONMENT,
    {
        CollisionLayers { memberships: COLLIDER, filters: ENVIRONMENT }
    }

    /// The layers of a hurtbox sensor on the layers `groups`: it is only
    /// found by queries, never collides.
    pub fn hurtbox(groups: u32) -> (r: CollisionLayers)
        ensures
            r.memberships == groups,
            r.filters == NONE,
    {
        CollisionLayers { memberships: groups, filters: NONE }
    }

    /// A spatial-query filter over the layers `groups`.
    pub fn filter(groups: u32) -> (r: SpatialQueryFilter)
        ensures
            r.mask == groups,
    {
        SpatialQueryFilter { mask: groups }
    }
}

} // verus!
