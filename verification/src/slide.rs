//! The slide: a crouched forward dash.
//!
//! A buffered jump press while crouching triggers it: all input is
//! blocked, and for a short acceleration window the horizontal velocity
//! is force-set toward the facing side each tick. A low forward probe
//! tests for enemies; the first hit latches `has_hit`, which suppresses
//! every further hit for the rest of the dash. The timer then runs a
//! settle window, still blocked, before the slide goes dormant and
//! releases the blocks.

use vstd::prelude::*;

use crate::blocker::Blocker;
use crate::body::spec_body_well_formed;
use crate::body::Body;
use crate::body::Velocity;
use crate::buffer::InputBuffer;
use crate::collision_groups::CollisionGroup;
use crate::collision_groups::ENEMY;
use crate::crouch::Crouch;
use crate::facing_direction::spec_facing_well_formed;
use crate::facing_direction::FacingDirection;
use crate::geometry::Probe;
use crate::geometry::Rect;
use crate::input_frame::InputFrame;
use crate::input_frame::InputState;
use crate::input_query::InputLike;
use crate::inputs::spec_type_matches;
use crate::inputs::InputType;
use crate::inputs::Inputs;
use crate::jump::spec_jump_press_frames;
use crate::jump::JUMP_BUFFER_WINDOW_US;
use crate::timer::spec_elapsed_after;
use crate::timer::StageTimer;

verus! {

/// How long the dash force-sets the velocity, microseconds.
pub const SLIDE_ACCELERATE_US: u64 = 150_000;

/// The settle window after the dash, still input-blocked, microseconds.
pub const SLIDE_SETTLE_US: u64 = 350_000;

/// The slide's stage.
#[derive(Clone, Copy, PartialEq, Eq, Structural, Debug)]
pub enum Stage {
    Dormant,
    Accelerate,
    Settle,
}

/// The slide behavior: stage, stage timer, the one-hit latch and the dash
/// speed in milli-units per second.
#[derive(Clone, Copy, PartialEq, Eq, Structural, Debug)]
pub struct Slide {
    pub stage_timer: StageTimer,
    pub stage: Stage,
    pub has_hit: bool,
    pub speed: i64,
}

/// Dash speeds under which the velocity arithmetic stays exact.
pub open spec fn spec_slide_well_formed(s: Slide) -> bool {
    0 < s.speed <= 10_000_000
}

/// `set_stage` over plain values: entering `Accelerate` arms the dash
/// window and clears the hit latch; entering `Settle` arms the settle
/// window; entering `Dormant` leaves the timer alone.
pub open spec fn spec_slide_set_stage(s: Slide, stage: Stage) -> Slide {
    match stage {
        Stage::Accelerate => Slide {
            stage,
            has_hit: false,
            stage_timer: StageTimer { duration_us: SLIDE_ACCELERATE_US, elapsed_us: 0 },
            ..s
        },
        Stage::Settle => Slide {
            stage,
            stage_timer: StageTimer { duration_us: SLIDE_SETTLE_US, elapsed_us: 0 },
            ..s
        },
        Stage::Dormant => Slide { stage, ..s },
    }
}

/// What one slide tick asks of its surroundings.
pub struct SlideOut {
    /// The tick consumed the buffered trigger press.
    pub consumed: bool,
    /// The tick blocked all input (the dash begins).
    pub block_all: bool,
    /// The tick cleared the blocking mask (the slide is over).
    pub clear_blocker: bool,
    /// The horizontal velocity the tick force-set, if any.
    pub forced_vx: Option<int>,
    /// The tick recorded a hit.
    pub hit_registered: bool,
}

/// A tick that asks nothing.
pub open spec fn spec_slide_out_none() -> SlideOut {
    SlideOut {
        consumed: false,
        block_all: false,
        clear_blocker: false,
        forced_vx: None,
        hit_registered: false,
    }
}

/// One slide step over plain values. The timer ticks first, as the live
/// system does; `trigger` is the crouching-and-buffered-press test, and
/// `probe_hit` the forward probe's outcome, read only while the dash is
/// active with the latch clear.
pub open spec fn spec_slide_step(s: Slide, trigger: bool, facing: int, dt: u64, probe_hit: bool) -> (
    Slide,
    SlideOut,
) {
    let ticked = StageTimer {
        duration_us: s.stage_timer.duration_us,
        elapsed_us: spec_elapsed_after(s.stage_timer.elapsed_us, dt),
    };
    let finished = ticked.elapsed_us >= ticked.duration_us;
    let s1 = Slide { stage_timer: ticked, ..s };
    match s1.stage {
        Stage::Dormant => {
            if trigger {
                (
                    spec_slide_set_stage(s1, Stage::Accelerate),
                    SlideOut { consumed: true, block_all: true, ..spec_slide_out_none() },
                )
            } else {
                (s1, spec_slide_out_none())
            }
        },
        Stage::Accelerate => {
            if finished {
                (spec_slide_set_stage(s1, Stage::Settle), spec_slide_out_none())
            } else if s1.has_hit {
                (
                    s1,
                    SlideOut { forced_vx: Some(s1.speed * facing), ..spec_slide_out_none() },
                )
            } else {
                (
                    Slide { has_hit: probe_hit, ..s1 },
                    SlideOut {
                        forced_vx: Some(s1.speed * facing),
                        hit_registered: probe_hit,
                        ..spec_slide_out_none()
                    },
                )
            }
        },
        Stage::Settle => {
            if finished {
                (
                    spec_slide_set_stage(s1, Stage::Dormant),
                    SlideOut { clear_blocker: true, ..spec_slide_out_none() },
                )
            } else {
                (s1, spec_slide_out_none())
            }
        },
    }
}

impl Slide {
    /// A dormant slide with the given dash speed, milli-units per second.
    pub fn new(speed: i64) -> (r: Slide)
        requires
            0 < speed <= 10_000_000,
        ensures
            r.stage is Dormant,
            r.speed == speed,
            !r.has_hit,
            r.stage_timer.duration_us == 0,
            r.stage_timer.elapsed_us == 0,
            spec_slide_well_formed(r),
    {
        Slide {
            stage_timer: StageTimer::new(0),
            stage: Stage::Dormant,
            has_hit: false,
            speed,
        }
    }

    /// Whether the slide is underway (dashing or settling).
    pub fn check(&self) -> (r: bool)
        ensures
            r == !(self.stage is Dormant),
    {
        !matches!(self.stage, Stage::Dormant)
    }

    /// Moves to `stage`: entering the dash arms its window and clears the
    /// hit latch, entering the settle arms its window.
    pub fn set_stage(&mut self, stage: Stage)
        ensures
            *final(self) == spec_slide_set_stage(*old(self), stage),
    {
        match stage {
            Stage::Accelerate => {
                self.has_hit = false;
                self.stage_timer.set_duration(SLIDE_ACCELERATE_US);
                self.stage_timer.reset();
            },
            Stage::Settle => {
                self.stage_timer.set_duration(SLIDE_SETTLE_US);
                self.stage_timer.reset();
            },
            Stage::Dormant => {},
        }
        self.stage = stage;
    }

    /// The dash's hit probe for a body centered at `(x, y)`: a low, flat
    /// rectangle ahead of the shins toward the facing side, filtered to
    /// the enemy layer.
    pub fn slide_probe(body: &Body, x: i64, y: i64, facing: &FacingDirection) -> (r: Probe)
        requires
            spec_body_well_formed(*body),
            spec_facing_well_formed(*facing),
            -0x4000_0000 <= x <= 0x4000_0000,
            -0x4000_0000 <= y <= 0x4000_0000,
        ensures
            r.rect.width == body.height / 2,
            r.rect.height == body.height / 4,
            r.x == x + body.height / 4 * facing.dir,
            r.y == y - body.height / 3,
            r.filter.mask == ENEMY,
    {
        Probe {
            rect: Rect { width: body.height / 2, height: body.height / 4 },
            x: x + body.height / 4 * facing.dir,
            y: y - body.height / 3,
            filter: CollisionGroup::filter(ENEMY),
        }
    }
}

/// One slide tick: runs `spec_slide_step` on the live state and applies
/// its requests — blocking, velocity forcing, trigger consumption — to
/// the buffer and the velocity.
pub fn sliding_tick(
    velocity: &mut Velocity,
    buffer: &mut InputBuffer,
    direction: &FacingDirection,
    crouching: &Crouch,
    state: &mut Slide,
    dt_us: u64,
    now_us: u64,
    probe_hit: bool,
) -> (hit: bool)
    requires
        spec_slide_well_formed(*old(state)),
        spec_facing_well_formed(*direction),
    ensures
        final(buffer).current_frame == old(buffer).current_frame,
        ({
            let trigger = (crouching.stage is Crouching) && spec_jump_press_frames(
                *old(buffer),
                now_us,
            ).len() > 0;
            let step = spec_slide_step(
                *old(state),
                trigger,
                direction.dir as int,
                dt_us,
                probe_hit,
            );
            &&& *final(state) == step.0
            &&& hit == step.1.hit_registered
            &&& final(buffer).buffer@ == if step.1.consumed {
                Seq::<InputFrame>::empty()
            } else {
                old(buffer).buffer@
            }
            &&& final(buffer).blocker == if step.1.block_all {
                Blocker(Blocker::ALL)
            } else if step.1.clear_blocker {
                Blocker(Blocker::NONE)
            } else {
                old(buffer).blocker
            }
            &&& final(velocity).x as int == (match step.1.forced_vx {
                Some(v) => v,
                None => old(velocity).x as int,
            })
            &&& final(velocity).y == old(velocity).y
        }),
{
    let timer_finished = state.stage_timer.tick(dt_us);

    match state.stage {
        Stage::Dormant => {
            if crouching.check() {
                let jp = Inputs::Jump.just_pressed();
                let mut q = buffer.query();
                q.contains(jp);
                q.within_timeframe(now_us, JUMP_BUFFER_WINDOW_US);
                proof {
                    assert((|f: InputFrame| jp.spec_matches(f)) =~= (|f: InputFrame|
                        spec_type_matches(
                            InputType { input: Inputs::Jump, state: InputState::JustPressed },
                            f,
                        )));
                    assert(q.frames@ == spec_jump_press_frames(*buffer, now_us));
                }
                if q.consume(buffer) {
                    buffer.block_all();
                    state.set_stage(Stage::Accelerate);
                }
            }
            false
        },
        Stage::Accelerate => {
            if timer_finished {
                state.set_stage(Stage::Settle);
                false
            } else if state.has_hit {
                velocity.x = state.speed * direction.get();
                false
            } else {
                velocity.x = state.speed * direction.get();
                if probe_hit {
                    state.has_hit = true;
                }
                probe_hit
            }
        },
        Stage::Settle => {
            if timer_finished {
                buffer.clear_blocker();
                state.set_stage(Stage::Dormant);
            }
            false
        },
    }
}

/// The environment one slide step sees.
pub struct SlideEnv {
    pub trigger: bool,
    pub facing: int,
    pub dt: u64,
    pub probe_hit: bool,
}

/// The state after running the steps of `envs` in order.
pub open spec fn spec_slide_run(s: Slide, envs: Seq<SlideEnv>) -> Slide
    decreases envs.len(),
{
    if envs.len() == 0 {
        s
    } else {
        let e = envs[0];
        spec_slide_run(spec_slide_step(s, e.trigger, e.facing, e.dt, e.probe_hit).0, envs.drop_first())
    }
}

/// How many of the steps of `envs` record a hit.
pub open spec fn spec_slide_run_hits(s: Slide, envs: Seq<SlideEnv>) -> int
    decreases envs.len(),
{
    if envs.len() == 0 {
        0
    } else {
        let e = envs[0];
        let step = spec_slide_step(s, e.trigger, e.facing, e.dt, e.probe_hit);
        (if step.1.hit_registered {
            1int
        } else {
            0int
        }) + spec_slide_run_hits(step.0, envs.drop_first())
    }
}

/// Once the latch is set, a run without a fresh trigger records no
/// further hit and keeps the latch.
pub proof fn lemma_slide_latch_holds(s: Slide, envs: Seq<SlideEnv>)
    requires
        s.has_hit,
        forall|i: int| 0 <= i < envs.len() ==> !(#[trigger] envs[i]).trigger,
    ensures
        spec_slide_run_hits(s, envs) == 0,
        spec_slide_run(s, envs).has_hit,
    decreases envs.len(),
{
    if envs.len() > 0 {
        let e = envs[0];
        let step = spec_slide_step(s, e.trigger, e.facing, e.dt, e.probe_hit);
        assert(step.0.has_hit && !step.1.hit_registered);
        lemma_slide_latch_holds(step.0, envs.drop_first());
    }
}

/// At most one hit per activation: a run of slide steps during which no
/// fresh activation is triggered records at most one hit, however often
/// and wherever the probe reports overlap.
pub proof fn lemma_slide_single_hit(s: Slide, envs: Seq<SlideEnv>)
    requires
        forall|i: int| 0 <= i < envs.len() ==> !(#[trigger] envs[i]).trigger,
    ensures
        spec_slide_run_hits(s, envs) <= 1,
    decreases envs.len(),
{
    if envs.len() > 0 {
        let e = envs[0];
        let step = spec_slide_step(s, e.trigger, e.facing, e.dt, e.probe_hit);
        if step.1.hit_registered {
            assert(step.0.has_hit);
            lemma_slide_latch_holds(step.0, envs.drop_first());
        } else {
            lemma_slide_single_hit(step.0, envs.drop_first());
        }
    }
}


/// Blocked input is inert: while the jump input is blocked, the buffered
/// history yields no press, so a dormant slide cannot start its dash,
/// whatever the buffer holds and however hard the player crouches.
pub proof fn lemma_blocked_jump_inert_slide(
    b: InputBuffer,
    now: u64,
    s: Slide,
    crouching: bool,
    facing: int,
    dt: u64,
    probe_hit: bool,
)
    requires
        crate::buffer::spec_mask_blocked(b.blocker, Blocker(Blocker::JUMP)),
        s.stage is Dormant,
    ensures
        spec_jump_press_frames(b, now).len() == 0,
        spec_slide_step(
            s,
            crouching && spec_jump_press_frames(b, now).len() > 0,
            facing,
            dt,
            probe_hit,
        ).0.stage is Dormant,
{
    Seq::<InputFrame>::empty().lemma_filter_len(
        |f: InputFrame| f.instant + JUMP_BUFFER_WINDOW_US >= now,
    );
}

} // verus!
