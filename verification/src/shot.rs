//! The ranged shot and its projectile.
//!
//! A buffered press of the bound action spawns a projectile and stalls
//! the shooter for a fixed window — frozen and fully blocked on the
//! ground, buttons-only blocked in the air. The projectile advances on
//! its own and despawns on its first overlap with an enemy or the
//! environment, so it can never record a second hit.

use vstd::prelude::*;

use crate::blocker::Blocker;
use crate::body::Velocity;
use crate::buffer::InputBuffer;
use crate::collision_groups::CollisionGroup;
use crate::collision_groups::ENEMY;
use crate::collision_groups::ENVIRONMENT;
use crate::fixed::spec_scale;
use crate::geometry::Probe;
use crate::geometry::Rect;
use crate::grounded::Grounded;
use crate::input_frame::InputFrame;
use crate::input_frame::InputState;
use crate::input_query::InputLike;
use crate::inputs::spec_press_frames;
use crate::inputs::spec_type_matches;
use crate::inputs::InputType;
use crate::inputs::Inputs;
use crate::timer::spec_elapsed_after;
use crate::timer::StageTimer;

verus! {

/// How far back a press of the bound action still triggers, microseconds.
pub const SHOT_BUFFER_WINDOW_US: u64 = 200_000;

/// The stall after firing, microseconds.
pub const SHOT_STALL_US: u64 = 500_000;

/// The projectile's speed, milli-units per second.
pub const PROJECTILE_SPEED_MILLI: i64 = 500_000;

/// The projectile's square probe side, milli-units.
pub const PROJECTILE_SIZE_MILLI: i64 = 15_000;

/// The shot's stage.
#[derive(Clone, Copy, PartialEq, Eq, Structural, Debug)]
pub enum Stage {
    Dormant,
    Stall,
}

/// The shot behavior: stage and the stall timer.
#[derive(Clone, Copy, PartialEq, Eq, Structural, Debug)]
pub struct Shot {
    pub stage: Stage,
    pub stage_timer: StageTimer,
}

/// What one shot tick asks of its surroundings.
pub struct ShotOut {
    /// The tick consumed the buffered trigger press.
    pub consumed: bool,
    /// The tick asks for a projectile spawn at the shooter, toward the
    /// facing side.
    pub spawn_projectile: bool,
    /// The tick blocked all input (a grounded shot).
    pub block_all: bool,
    /// The tick blocked the buttons only (an airborne shot).
    pub block_buttons: bool,
    /// The tick zeroed the horizontal velocity (a grounded shot).
    pub zero_vx: bool,
    /// The tick cleared the blocking mask (the stall is over).
    pub clear_blocker: bool,
}

/// A tick that asks nothing.
pub open spec fn spec_shot_out_none() -> ShotOut {
    ShotOut {
        consumed: false,
        spawn_projectile: false,
        block_all: false,
        block_buttons: false,
        zero_vx: false,
        clear_blocker: false,
    }
}

/// One shot step over plain values. The timer ticks first, as the live
/// system does; `trigger` is the buffered-press test. `set_stage` only
/// restarts the timer, whose duration stays the stall window.
pub open spec fn spec_shot_step(s: Shot, trigger: bool, grounded: bool, dt: u64) -> (
    Shot,
    ShotOut,
) {
    let ticked = StageTimer {
        duration_us: s.stage_timer.duration_us,
        elapsed_us: spec_elapsed_after(s.stage_timer.elapsed_us, dt),
    };
    let finished = ticked.elapsed_us >= ticked.duration_us;
    let s1 = Shot { stage_timer: ticked, ..s };
    match s1.stage {
        Stage::Dormant => {
            if trigger {
                (
                    Shot {
                        stage: Stage::Stall,
                        stage_timer: StageTimer { duration_us: ticked.duration_us, elapsed_us: 0 },
                    },
                    ShotOut {
                        consumed: true,
                        spawn_projectile: true,
                        block_all: grounded,
                        zero_vx: grounded,
                        block_buttons: !grounded,
                        ..spec_shot_out_none()
                    },
                )
            } else {
                (s1, spec_shot_out_none())
            }
        },
        Stage::Stall => {
            if finished {
                (
                    Shot {
                        stage: Stage::Dormant,
                        stage_timer: StageTimer { duration_us: ticked.duration_us, elapsed_us: 0 },
                    },
                    ShotOut { clear_blocker: true, ..spec_shot_out_none() },
                )
            } else {
                (s1, spec_shot_out_none())
            }
        },
    }
}

impl Shot {
    /// A dormant shot, the stall window armed.
    pub fn new() -> (r: Shot)
        ensures
            r.stage is Dormant,
            r.stage_timer.duration_us == SHOT_STALL_US,
            r.stage_timer.elapsed_us == 0,
    {
        Shot { stage: Stage::Dormant, stage_timer: StageTimer::new(SHOT_STALL_US) }
    }

    /// Moves to `stage` and restarts the timer; the duration stays.
    pub fn set_stage(&mut self, stage: Stage)
        ensures
            final(self).stage == stage,
            final(self).stage_timer.duration_us == old(self).stage_timer.duration_us,
            final(self).stage_timer.elapsed_us == 0,
    {
        self.stage = stage;
        self.stage_timer.reset();
    }
}

/// One shot tick: runs `spec_shot_step` on the live state, reading the
/// trigger for the bound action `action` from the buffered history. When
/// the step asks for a spawn, the embedding spawns a projectile at the
/// shooter's position toward the facing side.
pub fn shot_tick(
    vel: &mut Velocity,
    buffer: &mut InputBuffer,
    action: Inputs,
    state: &mut Shot,
    grounded: &Grounded,
    dt_us: u64,
    now_us: u64,
) -> (spawn: bool)
    ensures
        final(buffer).current_frame == old(buffer).current_frame,
        final(vel).y == old(vel).y,
        ({
            let trigger = spec_press_frames(
                *old(buffer),
                action,
                SHOT_BUFFER_WINDOW_US,
                now_us,
            ).len() > 0;
            let step = spec_shot_step(*old(state), trigger, grounded.in_state, dt_us);
            &&& *final(state) == step.0
            &&& spawn == step.1.spawn_projectile
            &&& final(buffer).buffer@ == if step.1.consumed {
                Seq::<InputFrame>::empty()
            } else {
                old(buffer).buffer@
            }
            &&& final(buffer).blocker == if step.1.block_all {
                Blocker(Blocker::ALL)
            } else if step.1.block_buttons {
                Blocker(old(buffer).blocker.0 | 0x000f)
            } else if step.1.clear_blocker {
                Blocker(Blocker::NONE)
            } else {
                old(buffer).blocker
            }
            &&& final(vel).x == if step.1.zero_vx {
                0int
            } else {
                old(vel).x as int
            }
        }),
{
    let timer_finished = state.stage_timer.tick(dt_us);

    match state.stage {
        Stage::Dormant => {
            let jp = action.just_pressed();
            let mut q = buffer.query();
            q.contains(jp);
            q.within_timeframe(now_us, SHOT_BUFFER_WINDOW_US);
            proof {
                assert((|f: InputFrame| jp.spec_matches(f)) =~= (|f: InputFrame|
                    spec_type_matches(
                        InputType { input: action, state: InputState::JustPressed },
                        f,
                    )));
                assert(q.frames@ == spec_press_frames(
                    *buffer,
                    action,
                    SHOT_BUFFER_WINDOW_US,
                    now_us,
                ));
            }
            if q.consume(buffer) {
                state.set_stage(Stage::Stall);
                if grounded.check() {
                    buffer.block_all();
                    vel.x = 0;
                } else {
                    buffer.block(Blocker::non_directional());
                }
                true
            } else {
                false
            }
        },
        Stage::Stall => {
            if timer_finished {
                state.set_stage(Stage::Dormant);
                buffer.clear_blocker();
            }
            false
        },
    }
}

/// A projectile in flight: its horizontal position in milli-units and its
/// direction, a signed unit scalar. It lives until its first overlap.
#[derive(Clone, Copy, PartialEq, Eq, Structural, Debug)]
pub struct Projectile {
    pub x: i64,
    pub direction: i64,
}

/// A projectile flies toward one of the two unit directions.
pub open spec fn spec_projectile_well_formed(p: Projectile) -> bool {
    p.direction == 1 || p.direction == -1
}

impl Projectile {
    /// A projectile at `x` flying toward `direction`'s side.
    pub fn new(x: i64, direction: i64) -> (r: Projectile)
        requires
            direction == 1 || direction == -1,
        ensures
            r.x == x,
            r.direction == direction,
            spec_projectile_well_formed(r),
    {
        Projectile { x, direction }
    }

    /// The projectile's square probe at height `y`, over the enemy and
    /// environment layers: its first overlap despawns it.
    pub fn projectile_probe(&self, y: i64) -> (r: Probe)
        requires
            -0x4000_0000 <= self.x <= 0x4000_0000,
            -0x4000_0000 <= y <= 0x4000_0000,
        ensures
            r.rect.width == PROJECTILE_SIZE_MILLI,
            r.rect.height == PROJECTILE_SIZE_MILLI,
            r.x == self.x,
            r.y == y,
            r.filter.mask == (ENEMY | ENVIRONMENT),
    {
        Probe {
            rect: Rect { width: PROJECTILE_SIZE_MILLI, height: PROJECTILE_SIZE_MILLI },
            x: self.x,
            y,
            filter: CollisionGroup::filter(ENEMY | ENVIRONMENT),
        }
    }

    /// One projectile tick: advance by speed times the tick length toward
    /// the flight direction, then despawn exactly when the probe at the
    /// new position reported overlap.
    pub fn projectile_tick(&mut self, dt_us: u64, probe_hit: bool) -> (despawn: bool)
        requires
            spec_projectile_well_formed(*old(self)),
            -0x4000_0000 <= old(self).x <= 0x4000_0000,
            dt_us <= 1_000_000,
        ensures
            final(self).direction == old(self).direction,
            final(self).x as int == old(self).x + old(self).direction * spec_scale(
                PROJECTILE_SPEED_MILLI as int,
                dt_us as int,
                1_000_000,
            ),
            spec_projectile_well_formed(*final(self)),
            despawn == probe_hit,
    {
        proof {
            crate::fixed::lemma_scale_magnitude(
                PROJECTILE_SPEED_MILLI as int,
                dt_us as int,
                1_000_000,
            );
        }
        let step: i64 = crate::fixed::scale(PROJECTILE_SPEED_MILLI, dt_us, 1_000_000);
        self.x = self.x + self.direction * step;
        probe_hit
    }
}

/// How many hits a projectile can record over its whole flight: the run
/// walks the overlap outcomes tick by tick, and the projectile is gone
/// from the first overlap on.
pub open spec fn spec_projectile_run_hits(alive: bool, overlaps: Seq<bool>) -> int
    decreases overlaps.len(),
{
    if overlaps.len() == 0 || !alive {
        0
    } else if overlaps[0] {
        1
    } else {
        spec_projectile_run_hits(alive, overlaps.drop_first())
    }
}

/// A projectile records at most one hit in its whole flight: the first
/// overlap despawns it.
pub proof fn lemma_projectile_single_hit(alive: bool, overlaps: Seq<bool>)
    ensures
        spec_projectile_run_hits(alive, overlaps) <= 1,
    decreases overlaps.len(),
{
    if overlaps.len() > 0 && alive && !overlaps[0] {
        lemma_projectile_single_hit(alive, overlaps.drop_first());
    }
}


/// Blocked input is inert: while the bound action is blocked, the
/// buffered history yields no press, so a dormant shot neither fires nor
/// spawns a projectile, whatever the buffer holds.
pub proof fn lemma_blocked_action_inert_shot(
    b: InputBuffer,
    action: Inputs,
    now: u64,
    s: Shot,
    grounded: bool,
    dt: u64,
)
    requires
        crate::buffer::spec_mask_blocked(b.blocker, crate::inputs::spec_input_blocker(action)),
        s.stage is Dormant,
    ensures
        spec_press_frames(b, action, SHOT_BUFFER_WINDOW_US, now).len() == 0,
        ({
            let step = spec_shot_step(
                s,
                spec_press_frames(b, action, SHOT_BUFFER_WINDOW_US, now).len() > 0,
                grounded,
                dt,
            );
            step.0.stage is Dormant && !step.1.spawn_projectile
        }),
{
    Seq::<InputFrame>::empty().lemma_filter_len(
        |f: InputFrame| f.instant + SHOT_BUFFER_WINDOW_US >= now,
    );
}

} // verus!
