//! Ground contact state.
//!
//! `Grounded` is derived state: it is recomputed once per tick, before the
//! behaviors that branch on it, either from the physics engine's resolved
//! contact normals or from a thin downward probe slightly narrower than
//! the body. Behaviors read it and never set it directly.

use vstd::prelude::*;

use crate::body::spec_body_well_formed;
use crate::body::Body;
use crate::collision_groups::CollisionGroup;
use crate::collision_groups::ENVIRONMENT;
use crate::geometry::Probe;
use crate::geometry::Rect;

verus! {

/// Whether the player's solid collider rests on a downward-facing surface.
#[derive(Clone, Copy, PartialEq, Eq, Structural, Debug)]
pub struct Grounded {
    pub in_state: bool,
}

/// A resolved contact normal, components in milli-units. With the falling
/// convention used here a contact qualifies as ground support when its
/// normal points downward relative to the contact pair, `y < 0`.
#[derive(Clone, Copy, PartialEq, Eq, Structural, Debug)]
pub struct ContactNormal {
    pub x: i64,
    pub y: i64,
}

/// True when some normal in `normals` qualifies as ground support.
pub open spec fn spec_any_support(normals: Seq<ContactNormal>) -> bool {
    exists|i: int| 0 <= i < normals.len() && normals[i].y < 0
}

impl Grounded {
    /// Airborne until the first recompute says otherwise.
    pub fn new() -> (r: Grounded)
        ensures
            !r.in_state,
    {
        Grounded { in_state: false }
    }

    /// Marks the player grounded.
    pub fn start(&mut self)
        ensures
            final(self).in_state,
    {
        self.in_state = true;
    }

    /// Marks the player airborne.
    pub fn stop(&mut self)
        ensures
            !final(self).in_state,
    {
        self.in_state = false;
    }

    /// Whether the player is grounded.
    pub fn check(&self) -> (r: bool)
        ensures
            r == self.in_state,
    {
        self.in_state
    }

    /// The downward probe for a body centered at `(x, y)`: a thin strip at
    /// the body's lower edge, slightly narrower than the body, filtered to
    /// the environment layer.
    pub fn ground_probe(body: &Body, x: i64, y: i64) -> (r: Probe)
        requires
            spec_body_well_formed(*body),
            -0x4000_0000 <= x <= 0x4000_0000,
            -0x4000_0000 <= y <= 0x4000_0000,
        ensures
            r.rect.width == body.width * 85 / 100,
            r.rect.height == 100,
            r.x == x,
            r.y == y - body.height / 2,
            r.filter.mask == ENVIRONMENT,
    {
        Probe {
            rect: Rect { width: body.width * 85 / 100, height: 100 },
            x,
            y: y - body.height / 2,
            filter: CollisionGroup::filter(ENVIRONMENT),
        }
    }

    /// Recomputes from a downward probe's outcome: grounded exactly when
    /// the probe intersected something.
    pub fn update_from_probe(&mut self, probe_hit: bool)
        ensures
            final(self).in_state == probe_hit,
    {
        self.in_state = probe_hit;
    }

    /// Recomputes from this tick's resolved contact normals: reset to
    /// airborne, then grounded exactly when some qualifying normal exists.
    pub fn update_from_contacts(&mut self, normals: &Vec<ContactNormal>)
        ensures
            final(self).in_state == spec_any_support(normals@),
    {
        self.in_state = false;
        let mut i: usize = 0;
        while i < normals.len()
            invariant
                i <= normals@.len(),
                !self.in_state,
                forall|k: int| 0 <= k < i ==> !(normals@[k].y < 0),
            decreases normals@.len() - i,
        {
            if normals[i].y < 0 {
                self.start();
                return ;
            }
            i = i + 1;
        }
    }
}

} // verus!
