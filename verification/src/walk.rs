//! Horizontal movement.
//!
//! Walk owns no exclusive stage: its stage is informational, read by the
//! animation interpreter. Each tick it either decelerates the player by an
//! exponential-decay step or accelerates toward the input direction,
//! clamped to the maximum speed. Crouching suppresses acceleration, and an
//! active kick suspends walking entirely.

use vstd::prelude::*;

use crate::body::Velocity;
use crate::buffer::spec_mask_blocked;
use crate::buffer::InputBuffer;
use crate::crouch::Crouch;
use crate::fixed::spec_abs;
use crate::fixed::spec_clamp;
use crate::fixed::spec_scale;
use crate::fixed::spec_sign;
use crate::inputs::Inputs;
use crate::kick::Kick;

verus! {

/// Horizontal input magnitudes at or below this (0.2 units) count as no
/// input.
pub const WALK_DEADZONE_MILLI: i64 = 200;

/// Horizontal speeds below this (1 unit per second) count as standing.
pub const WALK_REST_MILLI: i64 = 1000;

/// Walk's stage, informational only.
#[derive(Clone, Copy, PartialEq, Eq, Structural, Debug)]
pub enum Stage {
    Dormant,
    Active,
    Slowing,
}

/// The walking behavior's state and tuning. Factors are in thousandths,
/// the maximum speed in milli-units per second.
#[derive(Clone, Copy, PartialEq, Eq, Structural, Debug)]
pub struct Walk {
    pub stage: Stage,
    pub slowing_factor_milli: u64,
    pub max_speed: i64,
    pub acceleration_factor_milli: u64,
}

/// Tuning bounds under which every walk computation stays exact.
pub open spec fn spec_walk_well_formed(w: Walk) -> bool {
    &&& 0 < w.max_speed <= 10_000_000
    &&& w.slowing_factor_milli <= 100_000
    &&& w.acceleration_factor_milli <= 100_000
}

/// One exponential-decay deceleration step: the velocity loses the
/// fraction `slowing_factor * dt` of itself, truncated toward zero.
pub open spec fn spec_decelerate(vx: int, slowing_milli: int, dt_us: int) -> int {
    vx - spec_scale(vx, slowing_milli * dt_us, 1_000_000_000)
}

/// One acceleration step: input times maximum speed times the acceleration
/// factor times the tick length, added and clamped to the speed limit.
pub open spec fn spec_accelerate(
    vx: int,
    x_input: int,
    max_speed: int,
    accel_milli: int,
    dt_us: int,
) -> int {
    spec_clamp(
        vx + spec_scale(x_input, max_speed * accel_milli * dt_us, 1_000_000_000_000),
        -max_speed,
        max_speed,
    )
}

/// Whether an optional kick is in its active stage.
pub open spec fn spec_kick_active(kick: Option<&Kick>) -> bool {
    match kick {
        Some(k) => k.stage is Active,
        None => false,
    }
}

/// Whether an optional crouch is in its crouching stage.
pub open spec fn spec_crouch_active(crouch: Option<&Crouch>) -> bool {
    match crouch {
        Some(c) => c.stage is Crouching,
        None => false,
    }
}

impl Walk {
    /// A dormant walk with the given tuning: slowing and acceleration
    /// factors in thousandths, maximum speed in milli-units per second.
    pub fn new(slowing_factor_milli: u64, max_speed: i64, acceleration_factor_milli: u64) -> (r:
        Walk)
        requires
            0 < max_speed <= 10_000_000,
            slowing_factor_milli <= 100_000,
            acceleration_factor_milli <= 100_000,
        ensures
            r.stage is Dormant,
            r.slowing_factor_milli == slowing_factor_milli,
            r.max_speed == max_speed,
            r.acceleration_factor_milli == acceleration_factor_milli,
            spec_walk_well_formed(r),
    {
        Walk {
            stage: Stage::Dormant,
            slowing_factor_milli,
            max_speed,
            acceleration_factor_milli,
        }
    }

    /// The current stage.
    pub fn stage(&self) -> (r: Stage)
        ensures
            r == self.stage,
    {
        self.stage
    }

    /// Whether the walk is dormant.
    pub fn is_dormant(&self) -> (r: bool)
        ensures
            r == (self.stage is Dormant),
    {
        matches!(self.stage, Stage::Dormant)
    }

    /// The maximum speed, milli-units per second.
    pub fn max_speed(&self) -> (r: i64)
        ensures
            r == self.max_speed,
    {
        self.max_speed
    }

    /// Moves to `stage`; tuning is untouched.
    pub fn set_stage(&mut self, stage: Stage)
        ensures
            final(self).stage == stage,
            final(self).slowing_factor_milli == old(self).slowing_factor_milli,
            final(self).max_speed == old(self).max_speed,
            final(self).acceleration_factor_milli == old(self).acceleration_factor_milli,
    {
        self.stage = stage;
    }
}

/// One walking tick. With the kick active, nothing moves. Otherwise: no
/// input while nearly standing parks the walk dormant; no input, opposing
/// input or blocked directional input decelerates; anything else
/// accelerates toward the input — unless the player crouches, which
/// suppresses the acceleration while leaving the stage at `Active`.
pub fn walking_tick(
    vel: &mut Velocity,
    buffer: &InputBuffer,
    state: &mut Walk,
    kick: Option<&Kick>,
    crouch: Option<&Crouch>,
    dt_us: u64,
)
    requires
        spec_walk_well_formed(*old(state)),
        -1000 <= buffer.current_frame.dir_x <= 1000,
        -100_000_000 <= old(vel).x <= 100_000_000,
        dt_us <= 1_000_000,
        old(state).slowing_factor_milli * dt_us <= 1_000_000_000,
    ensures
        final(state).slowing_factor_milli == old(state).slowing_factor_milli,
        final(state).max_speed == old(state).max_speed,
        final(state).acceleration_factor_milli == old(state).acceleration_factor_milli,
        final(vel).y == old(vel).y,
        ({
            let x = buffer.current_frame.dir_x as int;
            let vx = old(vel).x as int;
            let blocked = spec_mask_blocked(
                buffer.blocker,
                crate::inputs::spec_input_blocker(Inputs::Directional),
            );
            if spec_kick_active(kick) {
                final(vel).x == vx && final(state).stage == old(state).stage
            } else if spec_abs(x) <= WALK_DEADZONE_MILLI && spec_abs(vx) < WALK_REST_MILLI {
                final(vel).x == vx && final(state).stage is Dormant
            } else if spec_abs(x) <= WALK_DEADZONE_MILLI || spec_sign(vx) * spec_sign(x) < 0
                || blocked {
                &&& final(state).stage is Slowing
                &&& final(vel).x == spec_decelerate(
                    vx,
                    old(state).slowing_factor_milli as int,
                    dt_us as int,
                )
                &&& spec_abs(final(vel).x as int) <= spec_abs(vx)
            } else if spec_crouch_active(crouch) {
                final(vel).x == vx && final(state).stage is Active
            } else {
                &&& final(state).stage is Active
                &&& final(vel).x == spec_accelerate(
                    vx,
                    x,
                    old(state).max_speed as int,
                    old(state).acceleration_factor_milli as int,
                    dt_us as int,
                )
                &&& spec_abs(final(vel).x as int) <= spec_abs(vx) + old(state).max_speed
            }
        }),
{
    let x_input: i64 = buffer.current_frame.dir_x;

    if matches!(kick, Some(k) if k.is_active()) {
        return ;
    }

    let ax = crate::fixed::abs64(x_input);
    let av = crate::fixed::abs64(vel.x);

    if ax <= WALK_DEADZONE_MILLI && av < WALK_REST_MILLI {
        state.set_stage(Stage::Dormant);
        return ;
    }

    let opposing = crate::fixed::sign64(vel.x) * crate::fixed::sign64(x_input) < 0;
    if ax <= WALK_DEADZONE_MILLI || opposing || buffer.blocked(Inputs::Directional) {
        state.set_stage(Stage::Slowing);
        let num: u64 = state.slowing_factor_milli * dt_us;
        proof {
            crate::fixed::lemma_scale_magnitude(vel.x as int, num as int, 1_000_000_000);
        }
        let step: i64 = crate::fixed::scale(vel.x, num, 1_000_000_000);
        vel.x = vel.x - step;
        return ;
    }

    state.set_stage(Stage::Active);
    if matches!(crouch, Some(c) if c.check()) {
        return ;
    }

    proof {
        assert((state.max_speed as int) * (state.acceleration_factor_milli as int) <= (
        1_000_000_000_000int)) by (nonlinear_arith)
            requires
                0 < state.max_speed as int <= 10_000_000,
                0 <= state.acceleration_factor_milli as int <= 100_000,
        ;
        assert((state.max_speed as int) * (state.acceleration_factor_milli as int) * (
        dt_us as int) <= 1_000_000_000_000_000_000) by (nonlinear_arith)
            requires
                0 <= (state.max_speed as int) * (state.acceleration_factor_milli as int)
                    <= 1_000_000_000_000,
                0 <= dt_us as int <= 1_000_000,
        ;
    }
    let num: u64 = (state.max_speed as u64) * state.acceleration_factor_milli * dt_us;
    proof {
        crate::fixed::lemma_scale_magnitude(x_input as int, num as int, 1_000_000_000_000);
        assert(spec_abs(spec_scale(x_input as int, num as int, 1_000_000_000_000))
            <= 1_000_000_000) by (nonlinear_arith)
            requires
                spec_abs(spec_scale(x_input as int, num as int, 1_000_000_000_000)) * (
                1_000_000_000_000int) <= spec_abs(x_input as int) * (num as int),
                0 <= spec_abs(spec_scale(x_input as int, num as int, 1_000_000_000_000)),
                spec_abs(x_input as int) <= 1000,
                0 <= num as int <= 1_000_000_000_000_000_000,
        ;
    }
    let delta: i64 = crate::fixed::scale(x_input, num, 1_000_000_000_000);
    vel.x = crate::fixed::clamp(vel.x + delta, -state.max_speed, state.max_speed);
}


/// The speed limit holds: whatever the input, one acceleration step lands
/// inside `[-max_speed, max_speed]`.
pub proof fn lemma_walk_speed_limited(vx: int, x: int, max_speed: int, accel_milli: int, dt: int)
    requires
        0 < max_speed,
    ensures
        -max_speed <= spec_accelerate(vx, x, max_speed, accel_milli, dt) <= max_speed,
{
}

/// Deceleration never grows the speed: one decay step keeps the
/// magnitude at or below what it was, and never flips the sign.
pub proof fn lemma_walk_decel_shrinks(vx: int, slowing_milli: int, dt: int)
    requires
        0 <= slowing_milli * dt <= 1_000_000_000,
    ensures
        spec_abs(spec_decelerate(vx, slowing_milli, dt)) <= spec_abs(vx),
        vx >= 0 ==> spec_decelerate(vx, slowing_milli, dt) >= 0,
        vx <= 0 ==> spec_decelerate(vx, slowing_milli, dt) <= 0,
{
    crate::fixed::lemma_scale_magnitude(vx, slowing_milli * dt, 1_000_000_000);
}

} // verus!
