//! The jump.
//!
//! A buffered jump press within a short replay window triggers the jump
//! when the player is grounded or still holds the air jump. Triggering
//! from the air spends the air-jump budget; the budget comes back only on
//! grounding (or through the kick's combo re-trigger). Releasing the
//! button or passing the apex ends the jump and halves the vertical
//! velocity — the deliberate short-hop dampening.

use vstd::prelude::*;

use crate::blocker::Blocker;
use crate::body::Velocity;
use crate::buffer::spec_mask_blocked;
use crate::buffer::InputBuffer;
use crate::crouch::Crouch;
use crate::fixed::spec_scale;
use crate::grounded::Grounded;
use crate::input_frame::InputFrame;
use crate::input_frame::InputState;
use crate::input_query::InputLike;
use crate::inputs::spec_type_matches;
use crate::inputs::InputType;
use crate::inputs::Inputs;
use crate::slide::Slide;

verus! {

/// How far back a jump press still triggers, microseconds: the input
/// replay window that forgives early presses.
pub const JUMP_BUFFER_WINDOW_US: u64 = 200_000;

/// The jump's stage.
#[derive(Clone, Copy, PartialEq, Eq, Structural, Debug)]
pub enum Stage {
    Dormant,
    Active,
}

/// The jump behavior: the air-jump latch, the takeoff speed in milli-units
/// per second, and the stage.
#[derive(Clone, Copy, PartialEq, Eq, Structural, Debug)]
pub struct Jump {
    pub has_air_jumped: bool,
    pub force: i64,
    pub stage: Stage,
}

/// Takeoff speeds under which the velocity arithmetic stays exact.
pub open spec fn spec_jump_well_formed(j: Jump) -> bool {
    0 < j.force <= 10_000_000
}

/// The frames of `b` that count as a buffered jump press at `now`: jump
/// pressed on the frame, inside the replay window, and none at all while
/// the jump input is blocked. The nesting mirrors the query the tick runs.
pub open spec fn spec_jump_press_frames(b: InputBuffer, now: u64) -> Seq<InputFrame> {
    let matched = if spec_mask_blocked(b.blocker, Blocker(Blocker::JUMP)) {
        Seq::<InputFrame>::empty()
    } else {
        b.buffer@.filter(
            |f: InputFrame|
                spec_type_matches(
                    InputType { input: Inputs::Jump, state: InputState::JustPressed },
                    f,
                ),
        )
    };
    matched.filter(|f: InputFrame| f.instant + JUMP_BUFFER_WINDOW_US >= now)
}

/// The unblocked released-test of the jump button on the current frame.
pub open spec fn spec_jump_released_now(b: InputBuffer) -> bool {
    b.current_frame.jump is Released && !spec_mask_blocked(b.blocker, Blocker(Blocker::JUMP))
}

/// One jump step over plain values: `(state, velocity, consumed)` after a
/// tick. `guard` suspends the whole step (a crouching slide owns the
/// tick); `buffered` is the buffered-press test, `released` the released
/// test; `consumed` reports whether the step consumed the buffered press.
/// Grounding restores the air-jump budget before anything else.
pub open spec fn spec_jump_step(
    state: Jump,
    vel: Velocity,
    grounded: bool,
    guard: bool,
    buffered: bool,
    released: bool,
) -> (Jump, Velocity, bool) {
    if guard {
        (state, vel, false)
    } else {
        let s = Jump { has_air_jumped: state.has_air_jumped && !grounded, ..state };
        match s.stage {
            Stage::Dormant => {
                if (!s.has_air_jumped || grounded) && buffered {
                    (
                        Jump { stage: Stage::Active, has_air_jumped: !grounded, force: s.force },
                        Velocity { x: vel.x, y: s.force },
                        true,
                    )
                } else {
                    (s, vel, false)
                }
            },
            Stage::Active => {
                if released || vel.y < 0 {
                    (
                        Jump { stage: Stage::Dormant, ..s },
                        Velocity { x: vel.x, y: spec_scale(vel.y as int, 1, 2) as i64 },
                        false,
                    )
                } else {
                    (s, vel, false)
                }
            },
        }
    }
}

impl Jump {
    /// A dormant jump with the given takeoff speed, budget available.
    pub fn new(jump_force: i64) -> (r: Jump)
        requires
            0 < jump_force <= 10_000_000,
        ensures
            r.stage is Dormant,
            r.force == jump_force,
            !r.has_air_jumped,
            spec_jump_well_formed(r),
    {
        Jump { has_air_jumped: false, force: jump_force, stage: Stage::Dormant }
    }

    /// Moves to `stage`; the latch and the force are untouched.
    pub fn set_stage(&mut self, stage: Stage)
        ensures
            final(self).stage == stage,
            final(self).has_air_jumped == old(self).has_air_jumped,
            final(self).force == old(self).force,
    {
        self.stage = stage;
    }

    /// Whether the air jump has been spent since the last grounding.
    pub fn has_air_jumped(&self) -> (r: bool)
        ensures
            r == self.has_air_jumped,
    {
        self.has_air_jumped
    }

    /// The takeoff speed, milli-units per second.
    pub fn force(&self) -> (r: i64)
        ensures
            r == self.force,
    {
        self.force
    }

    /// Gives the air jump back, as grounding and the kick's combo
    /// re-trigger do.
    pub fn reset_air_jump(&mut self)
        ensures
            !final(self).has_air_jumped,
            final(self).force == old(self).force,
            final(self).stage == old(self).stage,
    {
        self.has_air_jumped = false;
    }
}

/// One jump tick: runs `spec_jump_step` on the live state. The buffered
/// press is consumed exactly when the step reports it, and the blocking
/// mask and current frame are never touched.
pub fn jumping_tick(
    crouch: Option<&Crouch>,
    slide: Option<&Slide>,
    grounded: &Grounded,
    vel: &mut Velocity,
    state: &mut Jump,
    buffer: &mut InputBuffer,
    now_us: u64,
)
    requires
        spec_jump_well_formed(*old(state)),
        -100_000_000 <= old(vel).y <= 100_000_000,
    ensures
        final(buffer).blocker == old(buffer).blocker,
        final(buffer).current_frame == old(buffer).current_frame,
        ({
            let guard = (match crouch {
                Some(c) => c.stage is Crouching,
                None => false,
            }) && slide is Some;
            let buffered = spec_jump_press_frames(*old(buffer), now_us).len() > 0;
            let released = spec_jump_released_now(*old(buffer));
            let step = spec_jump_step(
                *old(state),
                *old(vel),
                grounded.in_state,
                guard,
                buffered,
                released,
            );
            &&& *final(state) == step.0
            &&& *final(vel) == step.1
            &&& final(buffer).buffer@ == if step.2 {
                Seq::<InputFrame>::empty()
            } else {
                old(buffer).buffer@
            }
        }),
{
    if matches!(crouch, Some(c) if c.check()) && slide.is_some() {
        return ;
    }
    if grounded.check() {
        state.has_air_jumped = false;
    }
    match state.stage {
        Stage::Dormant => {
            if !state.has_air_jumped || grounded.check() {
                let jp = Inputs::Jump.just_pressed();
                let mut q = buffer.query();
                q.contains(jp);
                q.within_timeframe(now_us, JUMP_BUFFER_WINDOW_US);
                proof {
                    assert((|f: InputFrame| jp.spec_matches(f)) =~= (|f: InputFrame|
                        spec_type_matches(
                            InputType { input: Inputs::Jump, state: InputState::JustPressed },
                            f,
                        )));
                    assert((|f: InputFrame| f.instant + JUMP_BUFFER_WINDOW_US >= now_us) =~= (
                    |f: InputFrame| f.instant + JUMP_BUFFER_WINDOW_US >= now_us));
                    assert(q.frames@ == spec_jump_press_frames(*buffer, now_us));
                }
                if q.consume(buffer) {
                    state.has_air_jumped = !grounded.check();
                    state.set_stage(Stage::Active);
                    vel.y = state.force;
                }
            }
        },
        Stage::Active => {
            if buffer.is(Inputs::Jump.released()) || vel.y < 0 {
                state.set_stage(Stage::Dormant);
                proof {
                    crate::fixed::lemma_scale_magnitude(vel.y as int, 1, 2);
                }
                vel.y = crate::fixed::scale(vel.y, 1, 2);
            }
        },
    }
}

/// Blocked input is inert: while the jump input is blocked, the buffered
/// history yields no press, so a dormant jump cannot activate, whatever
/// the buffer holds.
pub proof fn lemma_blocked_jump_inert(
    b: InputBuffer,
    now: u64,
    state: Jump,
    vel: Velocity,
    grounded: bool,
    guard: bool,
)
    requires
        spec_mask_blocked(b.blocker, Blocker(Blocker::JUMP)),
        state.stage is Dormant,
    ensures
        spec_jump_press_frames(b, now).len() == 0,
        spec_jump_step(
            state,
            vel,
            grounded,
            guard,
            spec_jump_press_frames(b, now).len() > 0,
            spec_jump_released_now(b),
        ).0.stage is Dormant,
{
    Seq::<InputFrame>::empty().lemma_filter_len(
        |f: InputFrame| f.instant + JUMP_BUFFER_WINDOW_US >= now,
    );
}

/// The environment one jump step sees: the velocity as physics left it,
/// and the guard, grounded, buffered-press and released tests.
pub struct JumpEnv {
    pub vel: Velocity,
    pub grounded: bool,
    pub guard: bool,
    pub buffered: bool,
    pub released: bool,
}

/// One step under an environment.
pub open spec fn spec_jump_env_step(s: Jump, e: JumpEnv) -> (Jump, Velocity, bool) {
    spec_jump_step(s, e.vel, e.grounded, e.guard, e.buffered, e.released)
}

/// The state after running the steps of `envs` in order.
pub open spec fn spec_jump_run(s: Jump, envs: Seq<JumpEnv>) -> Jump
    decreases envs.len(),
{
    if envs.len() == 0 {
        s
    } else {
        spec_jump_run(spec_jump_env_step(s, envs[0]).0, envs.drop_first())
    }
}

/// How many of the steps of `envs` take off (consume a buffered press and
/// enter the active stage).
pub open spec fn spec_jump_run_takeoffs(s: Jump, envs: Seq<JumpEnv>) -> int
    decreases envs.len(),
{
    if envs.len() == 0 {
        0
    } else {
        let step = spec_jump_env_step(s, envs[0]);
        (if step.2 {
            1int
        } else {
            0int
        }) + spec_jump_run_takeoffs(step.0, envs.drop_first())
    }
}

/// A spent air-jump budget stays spent while airborne, and permits no
/// takeoff: only a grounded tick restores it.
pub proof fn lemma_spent_budget_airborne(s: Jump, envs: Seq<JumpEnv>)
    requires
        s.has_air_jumped,
        forall|i: int| 0 <= i < envs.len() ==> !(#[trigger] envs[i]).grounded,
    ensures
        spec_jump_run_takeoffs(s, envs) == 0,
        spec_jump_run(s, envs).has_air_jumped,
    decreases envs.len(),
{
    if envs.len() > 0 {
        let step = spec_jump_env_step(s, envs[0]);
        assert(step.0.has_air_jumped && !step.2);
        lemma_spent_budget_airborne(step.0, envs.drop_first());
    }
}

/// Grounded-gated air jump: from a grounded, budget-free start, a ground
/// jump leaves the budget available; the one air jump spends it; and
/// every further attempt fails until the next grounded tick, whatever
/// presses the buffer holds.
pub proof fn lemma_air_jump_gated(
    s0: Jump,
    e_ground: JumpEnv,
    e_exit: JumpEnv,
    e_air: JumpEnv,
    envs: Seq<JumpEnv>,
)
    requires
        s0.stage is Dormant,
        !s0.has_air_jumped,
        e_ground.grounded && !e_ground.guard && e_ground.buffered,
        !e_exit.grounded && !e_exit.guard && (e_exit.released || e_exit.vel.y < 0),
        !e_air.grounded && !e_air.guard && e_air.buffered,
        forall|i: int| 0 <= i < envs.len() ==> !(#[trigger] envs[i]).grounded,
    ensures
        ({
            let s1 = spec_jump_env_step(s0, e_ground).0;
            let s2 = spec_jump_env_step(s1, e_exit).0;
            let s3 = spec_jump_env_step(s2, e_air).0;
            &&& s1.stage is Active && !s1.has_air_jumped
            &&& s2.stage is Dormant && !s2.has_air_jumped
            &&& s3.stage is Active && s3.has_air_jumped
            &&& spec_jump_run_takeoffs(s3, envs) == 0
            &&& spec_jump_run(s3, envs).has_air_jumped
        }),
{
    let s1 = spec_jump_env_step(s0, e_ground).0;
    let s2 = spec_jump_env_step(s1, e_exit).0;
    let s3 = spec_jump_env_step(s2, e_air).0;
    lemma_spent_budget_airborne(s3, envs);
}


} // verus!
