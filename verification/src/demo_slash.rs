//! The melee slash.
//!
//! A buffered press of the bound action starts a windup: on the ground it
//! freezes the player and blocks everything, in the air it blocks only the
//! buttons. The active window then probes three volumes around the facing
//! side once per tick until the first hit, latched by `has_hit`; a settle
//! window follows, unblocked, before the slash goes dormant.

use vstd::prelude::*;

use crate::blocker::Blocker;
use crate::body::Velocity;
use crate::buffer::InputBuffer;
use crate::collision_groups::CollisionGroup;
use crate::collision_groups::ENEMY;
use crate::facing_direction::spec_facing_well_formed;
use crate::facing_direction::FacingDirection;
use crate::geometry::Probe;
use crate::geometry::Rect;
use crate::grounded::Grounded;
use crate::input_frame::InputFrame;
use crate::input_frame::InputState;
use crate::input_query::InputLike;
use crate::inputs::spec_press_frames;
use crate::inputs::spec_type_matches;
use crate::inputs::InputType;
use crate::inputs::Inputs;
use crate::timer::spec_elapsed_after;
use crate::timer::StageTimer;

verus! {

/// How far back a press of the bound action still triggers, microseconds.
pub const SLASH_BUFFER_WINDOW_US: u64 = 200_000;

/// The windup and settle windows, microseconds.
pub const SLASH_WINDUP_US: u64 = 100_000;

/// The active window, microseconds.
pub const SLASH_ACTIVE_US: u64 = 300_000;

/// The blade's reference size, milli-units: the side of the frontal probe.
pub const SLASH_SIZE_MILLI: i64 = 25_000;

/// The side of the two smaller probes above and below, milli-units.
pub const SLASH_SIDE_MILLI: i64 = 11_111;

/// The slash's stage.
#[derive(Clone, Copy, PartialEq, Eq, Structural, Debug)]
pub enum Stage {
    Dormant,
    Windup,
    Active,
    Settle,
}

/// The slash behavior: stage, stage timer and the one-hit latch.
#[derive(Clone, Copy, PartialEq, Eq, Structural, Debug)]
pub struct DemoSlash {
    pub stage: Stage,
    pub stage_timer: StageTimer,
    pub has_hit: bool,
}

/// `set_stage` over plain values: windup and settle arm their window,
/// entering the active stage arms its window and clears the hit latch,
/// and every change restarts the timer.
pub open spec fn spec_slash_set_stage(s: DemoSlash, stage: Stage) -> DemoSlash {
    let duration = match stage {
        Stage::Windup => SLASH_WINDUP_US,
        Stage::Settle => SLASH_WINDUP_US,
        Stage::Active => SLASH_ACTIVE_US,
        Stage::Dormant => s.stage_timer.duration_us,
    };
    DemoSlash {
        stage,
        has_hit: if stage is Active {
            false
        } else {
            s.has_hit
        },
        stage_timer: StageTimer { duration_us: duration, elapsed_us: 0 },
    }
}

/// What one slash tick asks of its surroundings.
pub struct SlashOut {
    /// The tick consumed the buffered trigger press.
    pub consumed: bool,
    /// The tick blocked all input (a grounded windup).
    pub block_all: bool,
    /// The tick blocked the buttons only (an airborne windup).
    pub block_buttons: bool,
    /// The tick zeroed the horizontal velocity (a grounded windup).
    pub zero_vx: bool,
    /// The tick cleared the blocking mask (the swing is over).
    pub clear_blocker: bool,
    /// The tick recorded a hit.
    pub hit_registered: bool,
}

/// A tick that asks nothing.
pub open spec fn spec_slash_out_none() -> SlashOut {
    SlashOut {
        consumed: false,
        block_all: false,
        block_buttons: false,
        zero_vx: false,
        clear_blocker: false,
        hit_registered: false,
    }
}

/// One slash step over plain values. The timer ticks first, as the live
/// system does; `trigger` is the buffered-press test and `probe_hit` the
/// union of the three probes' outcomes, read only while active with the
/// latch clear.
pub open spec fn spec_slash_step(
    s: DemoSlash,
    trigger: bool,
    grounded: bool,
    dt: u64,
    probe_hit: bool,
) -> (DemoSlash, SlashOut) {
    let ticked = StageTimer {
        duration_us: s.stage_timer.duration_us,
        elapsed_us: spec_elapsed_after(s.stage_timer.elapsed_us, dt),
    };
    let finished = ticked.elapsed_us >= ticked.duration_us;
    let s1 = DemoSlash { stage_timer: ticked, ..s };
    match s1.stage {
        Stage::Dormant => {
            if trigger {
                (
                    spec_slash_set_stage(s1, Stage::Windup),
                    SlashOut {
                        consumed: true,
                        block_all: grounded,
                        zero_vx: grounded,
                        block_buttons: !grounded,
                        ..spec_slash_out_none()
                    },
                )
            } else {
                (s1, spec_slash_out_none())
            }
        },
        Stage::Windup => {
            if finished {
                (spec_slash_set_stage(s1, Stage::Active), spec_slash_out_none())
            } else {
                (s1, spec_slash_out_none())
            }
        },
        Stage::Active => {
            if finished {
                (
                    spec_slash_set_stage(s1, Stage::Settle),
                    SlashOut { clear_blocker: true, ..spec_slash_out_none() },
                )
            } else if !s1.has_hit {
                (
                    DemoSlash { has_hit: probe_hit, ..s1 },
                    SlashOut { hit_registered: probe_hit, ..spec_slash_out_none() },
                )
            } else {
                (s1, spec_slash_out_none())
            }
        },
        Stage::Settle => {
            if finished {
                (spec_slash_set_stage(s1, Stage::Dormant), spec_slash_out_none())
            } else {
                (s1, spec_slash_out_none())
            }
        },
    }
}

impl DemoSlash {
    /// A dormant slash, latch clear, timer unarmed.
    pub fn new() -> (r: DemoSlash)
        ensures
            r.stage is Dormant,
            !r.has_hit,
            r.stage_timer.duration_us == 0,
            r.stage_timer.elapsed_us == 0,
    {
        DemoSlash { stage: Stage::Dormant, stage_timer: StageTimer::new(0), has_hit: false }
    }

    /// Moves to `next`, arming the stage's window and restarting the
    /// timer; entering the active stage clears the hit latch.
    pub fn set_stage(&mut self, next: Stage)
        ensures
            *final(self) == spec_slash_set_stage(*old(self), next),
    {
        match next {
            Stage::Windup => {
                self.stage_timer.set_duration(SLASH_WINDUP_US);
            },
            Stage::Settle => {
                self.stage_timer.set_duration(SLASH_WINDUP_US);
            },
            Stage::Active => {
                self.has_hit = false;
                self.stage_timer.set_duration(SLASH_ACTIVE_US);
            },
            Stage::Dormant => {},
        }
        self.stage = next;
        self.stage_timer.reset();
    }

    /// The high probe: a small square above and ahead of the player, on
    /// the facing side.
    pub fn slash_probe_high(x: i64, y: i64, facing: &FacingDirection) -> (r: Probe)
        requires
            spec_facing_well_formed(*facing),
            -0x4000_0000 <= x <= 0x4000_0000,
            -0x4000_0000 <= y <= 0x4000_0000,
        ensures
            r.rect.width == SLASH_SIDE_MILLI,
            r.rect.height == SLASH_SIDE_MILLI,
            r.x == x + 2 * SLASH_SIZE_MILLI * facing.dir,
            r.y == y + SLASH_SIZE_MILLI + SLASH_SIDE_MILLI,
            r.filter.mask == ENEMY,
    {
        Probe {
            rect: Rect { width: SLASH_SIDE_MILLI, height: SLASH_SIDE_MILLI },
            x: x + 2 * SLASH_SIZE_MILLI * facing.dir,
            y: y + SLASH_SIZE_MILLI + SLASH_SIDE_MILLI,
            filter: CollisionGroup::filter(ENEMY),
        }
    }

    /// The low probe: the high probe mirrored below.
    pub fn slash_probe_low(x: i64, y: i64, facing: &FacingDirection) -> (r: Probe)
        requires
            spec_facing_well_formed(*facing),
            -0x4000_0000 <= x <= 0x4000_0000,
            -0x4000_0000 <= y <= 0x4000_0000,
        ensures
            r.rect.width == SLASH_SIDE_MILLI,
            r.rect.height == SLASH_SIDE_MILLI,
            r.x == x + 2 * SLASH_SIZE_MILLI * facing.dir,
            r.y == y - (SLASH_SIZE_MILLI + SLASH_SIDE_MILLI),
            r.filter.mask == ENEMY,
    {
        Probe {
            rect: Rect { width: SLASH_SIDE_MILLI, height: SLASH_SIDE_MILLI },
            x: x + 2 * SLASH_SIZE_MILLI * facing.dir,
            y: y - (SLASH_SIZE_MILLI + SLASH_SIDE_MILLI),
            filter: CollisionGroup::filter(ENEMY),
        }
    }

    /// The frontal probe: the blade-sized square straight ahead.
    pub fn slash_probe_front(x: i64, y: i64, facing: &FacingDirection) -> (r: Probe)
        requires
            spec_facing_well_formed(*facing),
            -0x4000_0000 <= x <= 0x4000_0000,
            -0x4000_0000 <= y <= 0x4000_0000,
        ensures
            r.rect.width == SLASH_SIZE_MILLI,
            r.rect.height == SLASH_SIZE_MILLI,
            r.x == x + 5 * SLASH_SIZE_MILLI / 2 * facing.dir,
            r.y == y,
            r.filter.mask == ENEMY,
    {
        Probe {
            rect: Rect { width: SLASH_SIZE_MILLI, height: SLASH_SIZE_MILLI },
            x: x + 5 * SLASH_SIZE_MILLI / 2 * facing.dir,
            y,
            filter: CollisionGroup::filter(ENEMY),
        }
    }
}

/// One slash tick: runs `spec_slash_step` on the live state, reading the
/// trigger for the bound action `action` from the buffered history and
/// applying the step's blocking and velocity requests.
pub fn slashing_tick(
    vel: &mut Velocity,
    buffer: &mut InputBuffer,
    action: Inputs,
    state: &mut DemoSlash,
    grounded: &Grounded,
    dt_us: u64,
    now_us: u64,
    probe_hit: bool,
) -> (hit: bool)
    ensures
        final(buffer).current_frame == old(buffer).current_frame,
        final(vel).y == old(vel).y,
        ({
            let trigger = spec_press_frames(
                *old(buffer),
                action,
                SLASH_BUFFER_WINDOW_US,
                now_us,
            ).len() > 0;
            let step = spec_slash_step(*old(state), trigger, grounded.in_state, dt_us, probe_hit);
            &&& *final(state) == step.0
            &&& hit == step.1.hit_registered
            &&& final(buffer).buffer@ == if step.1.consumed {
                Seq::<InputFrame>::empty()
            } else {
                old(buffer).buffer@
            }
            &&& final(buffer).blocker == if step.1.block_all {
                Blocker(Blocker::ALL)
            } else if step.1.block_buttons {
                Blocker(old(buffer).blocker.0 | 0x000f)
            } else if step.1.clear_blocker {
                Blocker(Blocker::NONE)
            } else {
                old(buffer).blocker
            }
            &&& final(vel).x == if step.1.zero_vx {
                0int
            } else {
                old(vel).x as int
            }
        }),
{
    let timer_finished = state.stage_timer.tick(dt_us);

    match state.stage {
        Stage::Dormant => {
            let jp = action.just_pressed();
            let mut q = buffer.query();
            q.contains(jp);
            q.within_timeframe(now_us, SLASH_BUFFER_WINDOW_US);
            proof {
                assert((|f: InputFrame| jp.spec_matches(f)) =~= (|f: InputFrame|
                    spec_type_matches(
                        InputType { input: action, state: InputState::JustPressed },
                        f,
                    )));
                assert(q.frames@ == spec_press_frames(
                    *buffer,
                    action,
                    SLASH_BUFFER_WINDOW_US,
                    now_us,
                ));
            }
            if q.consume(buffer) {
                state.set_stage(Stage::Windup);
                if grounded.check() {
                    buffer.block_all();
                    vel.x = 0;
                } else {
                    buffer.block(Blocker::non_directional());
                }
            }
            false
        },
        Stage::Windup => {
            if timer_finished {
                state.set_stage(Stage::Active);
            }
            false
        },
        Stage::Active => {
            if timer_finished {
                state.set_stage(Stage::Settle);
                buffer.clear_blocker();
                false
            } else if !state.has_hit {
                if probe_hit {
                    state.has_hit = true;
                }
                probe_hit
            } else {
                false
            }
        },
        Stage::Settle => {
            if timer_finished {
                state.set_stage(Stage::Dormant);
            }
            false
        },
    }
}

/// The environment one slash step sees.
pub struct SlashEnv {
    pub trigger: bool,
    pub grounded: bool,
    pub dt: u64,
    pub probe_hit: bool,
}

/// The state after running the steps of `envs` in order.
pub open spec fn spec_slash_run(s: DemoSlash, envs: Seq<SlashEnv>) -> DemoSlash
    decreases envs.len(),
{
    if envs.len() == 0 {
        s
    } else {
        let e = envs[0];
        spec_slash_run(spec_slash_step(s, e.trigger, e.grounded, e.dt, e.probe_hit).0, envs.drop_first())
    }
}

/// How many of the steps of `envs` record a hit.
pub open spec fn spec_slash_run_hits(s: DemoSlash, envs: Seq<SlashEnv>) -> int
    decreases envs.len(),
{
    if envs.len() == 0 {
        0
    } else {
        let e = envs[0];
        let step = spec_slash_step(s, e.trigger, e.grounded, e.dt, e.probe_hit);
        (if step.1.hit_registered {
            1int
        } else {
            0int
        }) + spec_slash_run_hits(step.0, envs.drop_first())
    }
}

/// Once the latch is set, a run without a fresh trigger records no
/// further hit and keeps the latch. The windup is excluded as a start
/// state: it already belongs to the next activation, whose entry into the
/// active stage rightly clears the latch.
pub proof fn lemma_slash_latch_holds(s: DemoSlash, envs: Seq<SlashEnv>)
    requires
        s.has_hit,
        !(s.stage is Windup),
        forall|i: int| 0 <= i < envs.len() ==> !(#[trigger] envs[i]).trigger,
    ensures
        spec_slash_run_hits(s, envs) == 0,
        spec_slash_run(s, envs).has_hit,
    decreases envs.len(),
{
    if envs.len() > 0 {
        let e = envs[0];
        let step = spec_slash_step(s, e.trigger, e.grounded, e.dt, e.probe_hit);
        assert(step.0.has_hit && !(step.0.stage is Windup) && !step.1.hit_registered);
        lemma_slash_latch_holds(step.0, envs.drop_first());
    }
}

/// At most one hit per activation: a run of slash steps during which no
/// fresh activation is triggered records at most one hit, however often
/// and wherever the probes report overlap.
pub proof fn lemma_slash_single_hit(s: DemoSlash, envs: Seq<SlashEnv>)
    requires
        forall|i: int| 0 <= i < envs.len() ==> !(#[trigger] envs[i]).trigger,
    ensures
        spec_slash_run_hits(s, envs) <= 1,
    decreases envs.len(),
{
    if envs.len() > 0 {
        let e = envs[0];
        let step = spec_slash_step(s, e.trigger, e.grounded, e.dt, e.probe_hit);
        if step.1.hit_registered {
            assert(step.0.has_hit && step.0.stage is Active);
            lemma_slash_latch_holds(step.0, envs.drop_first());
        } else {
            lemma_slash_single_hit(step.0, envs.drop_first());
        }
    }
}


/// Blocked input is inert: while the bound action is blocked, the
/// buffered history yields no press, so a dormant slash cannot start its
/// windup, whatever the buffer holds.
pub proof fn lemma_blocked_action_inert_slash(
    b: InputBuffer,
    action: Inputs,
    now: u64,
    s: DemoSlash,
    grounded: bool,
    dt: u64,
    probe_hit: bool,
)
    requires
        crate::buffer::spec_mask_blocked(b.blocker, crate::inputs::spec_input_blocker(action)),
        s.stage is Dormant,
    ensures
        spec_press_frames(b, action, SLASH_BUFFER_WINDOW_US, now).len() == 0,
        spec_slash_step(
            s,
            spec_press_frames(b, action, SLASH_BUFFER_WINDOW_US, now).len() > 0,
            grounded,
            dt,
            probe_hit,
        ).0.stage is Dormant,
{
    Seq::<InputFrame>::empty().lemma_filter_len(
        |f: InputFrame| f.instant + SLASH_BUFFER_WINDOW_US >= now,
    );
}

} // verus!
