//! The crouch: a stance change by collider swap.
//!
//! Crouching deactivates the standing solid collider, spawns a shorter
//! crouch collider as the body's new active collider, and remembers the
//! old collider and its layers. Standing back up requires a clearance
//! probe at standing height to find nothing; it then despawns the crouch
//! collider, reinstates the stored collider reference and restores its
//! layers bit for bit. Both swaps commit within one tick, so no other
//! system ever reads a stale collider reference.

use vstd::prelude::*;

use crate::blocker::Blockable;
use crate::body::spec_body_well_formed;
use crate::body::Body;
use crate::buffer::InputBuffer;
use crate::collision_groups::CollisionGroup;
use crate::collision_groups::CollisionLayers;
use crate::collision_groups::ENVIRONMENT;
use crate::directions::InputDirection;
use crate::geometry::Probe;
use crate::geometry::Rect;
use crate::grounded::Grounded;
use crate::input_query::InputLike;
use crate::slide::Slide;

verus! {

/// The crouch's stage. While crouching it owns the spawned crouch
/// collider and remembers the shelved standing collider with its original
/// layers.
#[derive(Clone, Copy, PartialEq, Eq, Structural, Debug)]
pub enum Stage {
    Standing,
    Crouching { collider_reference: u64, stored_collider: u64, stored_layers: CollisionLayers },
}

/// The crouch behavior.
#[derive(Clone, Copy, PartialEq, Eq, Structural, Debug)]
pub struct Crouch {
    pub stage: Stage,
}

/// The collider side effects of one crouch tick, for the embedding to
/// apply atomically within the same tick.
#[derive(Clone, Copy, PartialEq, Eq, Structural, Debug)]
pub enum CrouchEffect {
    /// Nothing changed.
    Hold,
    /// Move the collider `deactivate` to the inactive layers and spawn the
    /// crouch collider under the handle `spawn`.
    Entered { deactivate: u64, spawn: u64 },
    /// Despawn the crouch collider `despawn` and give the collider
    /// `reactivate` back its original layers `layers`.
    Restored { despawn: u64, reactivate: u64, layers: CollisionLayers },
}

/// One crouch step over plain values: the stance machine with every
/// engine outcome an argument. `down_held` is the unblocked
/// down-direction test on the current frame; `clearance_blocked` the
/// stand-up probe's outcome; `layers_ok` whether the active collider's
/// layer component was reachable this tick (a transient miss skips the
/// tick); `active_layers` the layers read off it; `new_collider` the
/// handle a spawned crouch collider would get.
pub open spec fn spec_crouch_step(
    state: Crouch,
    body: Body,
    sliding: bool,
    grounded: bool,
    down_held: bool,
    clearance_blocked: bool,
    layers_ok: bool,
    active_layers: CollisionLayers,
    new_collider: u64,
) -> (Crouch, Body, CrouchEffect) {
    if sliding {
        (state, body, CrouchEffect::Hold)
    } else {
        match state.stage {
            Stage::Standing => {
                if down_held && grounded && layers_ok {
                    (
                        Crouch {
                            stage: Stage::Crouching {
                                collider_reference: new_collider,
                                stored_collider: body.collider_ref,
                                stored_layers: active_layers,
                            },
                        },
                        Body { collider_ref: new_collider, ..body },
                        CrouchEffect::Entered { deactivate: body.collider_ref, spawn: new_collider },
                    )
                } else {
                    (state, body, CrouchEffect::Hold)
                }
            },
            Stage::Crouching { collider_reference, stored_collider, stored_layers } => {
                if !down_held && !clearance_blocked && layers_ok {
                    (
                        Crouch { stage: Stage::Standing },
                        Body { collider_ref: stored_collider, ..body },
                        CrouchEffect::Restored {
                            despawn: collider_reference,
                            reactivate: stored_collider,
                            layers: stored_layers,
                        },
                    )
                } else {
                    (state, body, CrouchEffect::Hold)
                }
            },
        }
    }
}

impl Crouch {
    /// A standing crouch behavior.
    pub fn new() -> (r: Crouch)
        ensures
            r.stage is Standing,
    {
        Crouch { stage: Stage::Standing }
    }

    /// Moves to `stage`.
    pub fn set_stage(&mut self, stage: Stage)
        ensures
            final(self).stage == stage,
    {
        self.stage = stage;
    }

    /// Whether the player crouches.
    pub fn check(&self) -> (r: bool)
        ensures
            r == (self.stage is Crouching),
    {
        matches!(self.stage, Stage::Crouching { .. })
    }

    /// The crouch collider's shape and its vertical offset from the body
    /// center: half the body's height, seated in the body's lower half.
    pub fn crouch_collider_geometry(body: &Body) -> (r: (Rect, i64))
        requires
            spec_body_well_formed(*body),
        ensures
            r.0.width == body.width,
            r.0.height == body.height / 2,
            r.1 == -(body.height / 4),
    {
        (Rect { width: body.width, height: body.height / 2 }, -(body.height / 4))
    }

    /// The stand-up clearance probe for a body centered at `(x, y)`: a
    /// half-extents rectangle over the body's upper half, filtered to the
    /// environment layer. Standing up is refused while it intersects
    /// anything.
    pub fn standup_probe(body: &Body, x: i64, y: i64) -> (r: Probe)
        requires
            spec_body_well_formed(*body),
            -0x4000_0000 <= x <= 0x4000_0000,
            -0x4000_0000 <= y <= 0x4000_0000,
        ensures
            r.rect.width == body.width / 2,
            r.rect.height == body.height / 2,
            r.x == x,
            r.y == y + body.height / 4,
            r.filter.mask == ENVIRONMENT,
    {
        Probe {
            rect: Rect { width: body.width / 2, height: body.height / 2 },
            x,
            y: y + body.height / 4,
            filter: CollisionGroup::filter(ENVIRONMENT),
        }
    }
}

/// One crouch tick: runs `spec_crouch_step` on the live state, reading
/// `down_held` off the buffer's current frame. The returned effect is the
/// embedding's to apply before any other system reads the body again.
pub fn crouching_tick(
    slide: Option<&Slide>,
    grounded: &Grounded,
    body: &mut Body,
    state: &mut Crouch,
    input: &InputBuffer,
    clearance_blocked: bool,
    layers_ok: bool,
    active_layers: CollisionLayers,
    new_collider: u64,
) -> (eff: CrouchEffect)
    ensures
        ({
            let sliding = match slide {
                Some(s) => !(s.stage is Dormant),
                None => false,
            };
            let down_held = InputDirection::Down.spec_matches(input.current_frame)
                && !crate::buffer::spec_mask_blocked(
                input.blocker,
                InputDirection::Down.spec_blocker(),
            );
            (*final(state), *final(body), eff) == spec_crouch_step(
                *old(state),
                *old(body),
                sliding,
                grounded.in_state,
                down_held,
                clearance_blocked,
                layers_ok,
                active_layers,
                new_collider,
            )
        }),
{
    if matches!(slide, Some(s) if s.check()) {
        return CrouchEffect::Hold;
    }
    let down_held = input.is(InputDirection::Down);
    match state.stage {
        Stage::Standing => {
            if down_held && grounded.check() && layers_ok {
                let stored = body.collider_ref;
                state.set_stage(
                    Stage::Crouching {
                        collider_reference: new_collider,
                        stored_collider: stored,
                        stored_layers: active_layers,
                    },
                );
                body.collider_ref = new_collider;
                CrouchEffect::Entered { deactivate: stored, spawn: new_collider }
            } else {
                CrouchEffect::Hold
            }
        },
        Stage::Crouching { collider_reference, stored_collider, stored_layers } => {
            if !down_held && !clearance_blocked && layers_ok {
                state.set_stage(Stage::Standing);
                body.collider_ref = stored_collider;
                CrouchEffect::Restored {
                    despawn: collider_reference,
                    reactivate: stored_collider,
                    layers: stored_layers,
                }
            } else {
                CrouchEffect::Hold
            }
        },
    }
}

/// Collider swap round trip: standing, crouching on a down press, then
/// standing back up with clearance restores the body's collider reference
/// and re-applies the shelved collider's layers bit for bit.
pub proof fn lemma_crouch_round_trip(
    state: Crouch,
    body: Body,
    active_layers: CollisionLayers,
    new_collider: u64,
    clearance_blocked_2: bool,
    down_2: bool,
    layers_2: CollisionLayers,
    new_2: u64,
)
    requires
        state.stage is Standing,
        !clearance_blocked_2,
        !down_2,
    ensures
        ({
            let (s1, b1, e1) = spec_crouch_step(
                state,
                body,
                false,
                true,
                true,
                false,
                true,
                active_layers,
                new_collider,
            );
            let (s2, b2, e2) = spec_crouch_step(
                s1,
                b1,
                false,
                true,
                down_2,
                clearance_blocked_2,
                true,
                layers_2,
                new_2,
            );
            &&& s1.stage is Crouching
            &&& s2.stage is Standing
            &&& b2.collider_ref == body.collider_ref
            &&& b2 == body
            &&& e2 == (CrouchEffect::Restored {
                despawn: new_collider,
                reactivate: body.collider_ref,
                layers: active_layers,
            })
        }),
{
}

/// While the stand-up clearance probe reports an obstruction, a crouching
/// player stays crouching and the collider set is untouched, whatever the
/// input.
pub proof fn lemma_standup_refused_while_obstructed(
    state: Crouch,
    body: Body,
    grounded: bool,
    down_held: bool,
    layers_ok: bool,
    active_layers: CollisionLayers,
    new_collider: u64,
)
    requires
        state.stage is Crouching,
    ensures
        ({
            let (s1, b1, e1) = spec_crouch_step(
                state,
                body,
                false,
                grounded,
                down_held,
                true,
                layers_ok,
                active_layers,
                new_collider,
            );
            &&& s1 == state
            &&& b1 == body
            &&& e1 is Hold
        }),
{
}


/// Blocked input is inert: while the down direction is blocked, the
/// down-held test is false, so a standing player cannot start crouching,
/// whatever the current frame reads.
pub proof fn lemma_blocked_down_inert_crouch(
    b: InputBuffer,
    state: Crouch,
    body: Body,
    grounded: bool,
    clearance_blocked: bool,
    layers_ok: bool,
    active_layers: CollisionLayers,
    new_collider: u64,
)
    requires
        crate::buffer::spec_mask_blocked(b.blocker, InputDirection::Down.spec_blocker()),
        state.stage is Standing,
    ensures
        !(InputDirection::Down.spec_matches(b.current_frame) && !crate::buffer::spec_mask_blocked(
            b.blocker,
            InputDirection::Down.spec_blocker(),
        )),
        spec_crouch_step(
            state,
            body,
            false,
            grounded,
            false,
            clearance_blocked,
            layers_ok,
            active_layers,
            new_collider,
        ).0.stage is Standing,
{
}

} // verus!
