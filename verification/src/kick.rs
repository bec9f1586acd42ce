//! The kick: an air-dive attack.
//!
//! Only available as the second aerial action: it triggers on a buffered
//! jump press with a downward input component, once the air jump is spent.
//! While active the player dives on a fixed-magnitude diagonal with
//! gravity suspended. Grounding cancels the dive; striking an enemy ends
//! it and re-triggers the jump, refreshing the air-jump budget — the
//! kick-into-jump combo. The kick's tick must run before the jump's so
//! that the forced re-activation is not overwritten.

use vstd::prelude::*;

use crate::blocker::Blockable;
use crate::blocker::Blocker;
use crate::body::spec_body_well_formed;
use crate::body::Body;
use crate::body::Velocity;
use crate::buffer::spec_mask_blocked;
use crate::buffer::InputBuffer;
use crate::collision_groups::CollisionGroup;
use crate::collision_groups::ENEMY;
use crate::directions::InputDirection;
use crate::facing_direction::spec_facing_well_formed;
use crate::facing_direction::FacingDirection;
use crate::fixed::spec_abs;
use crate::fixed::spec_scale;
use crate::fixed::spec_sign;
use crate::geometry::Probe;
use crate::geometry::Rect;
use crate::grounded::Grounded;
use crate::input_frame::InputFrame;
use crate::input_query::InputLike;
use crate::inputs::Inputs;
use crate::jump::spec_jump_well_formed;
use crate::jump::Jump;

verus! {

/// How far back a jump press still counts as a kick trigger, microseconds.
pub const KICK_BUFFER_WINDOW_US: u64 = 200_000;

/// Gravity scale in thousandths: suspended during the dive, normal
/// otherwise.
pub const GRAVITY_NORMAL_MILLI: i64 = 1000;

/// The kick's stage.
#[derive(Clone, Copy, PartialEq, Eq, Structural, Debug)]
pub enum Stage {
    Dormant,
    Active,
}

/// The kick behavior: its stage and the dive speed in milli-units per
/// second.
#[derive(Clone, Copy, PartialEq, Eq, Structural, Debug)]
pub struct Kick {
    pub stage: Stage,
    pub kick_speed: i64,
}

/// Dive speeds under which the velocity arithmetic stays exact.
pub open spec fn spec_kick_well_formed(k: Kick) -> bool {
    0 < k.kick_speed <= 10_000_000
}

/// An unblocked jump press on the frame `f`.
pub open spec fn spec_kick_press_ok(b: Blocker, f: InputFrame) -> bool {
    !spec_mask_blocked(b, Blocker(Blocker::JUMP)) && f.jump is JustPressed
}

/// An unblocked direction with a downward component on the frame `f`.
pub open spec fn spec_kick_dir_ok(b: Blocker, f: InputFrame) -> bool {
    ||| !spec_mask_blocked(b, Blocker(Blocker::DOWN_RIGHT)) && f.direction
        == InputDirection::DownRight
    ||| !spec_mask_blocked(b, Blocker(Blocker::DOWN)) && f.direction == InputDirection::Down
    ||| !spec_mask_blocked(b, Blocker(Blocker::DOWN_LEFT)) && f.direction
        == InputDirection::DownLeft
}

/// The frames of `b` that can trigger a kick at `now`: within the buffer
/// window, an unblocked jump press, an unblocked downward direction. The
/// nesting mirrors the query the tick runs.
pub open spec fn spec_kick_trigger_frames(b: InputBuffer, now: u64) -> Seq<InputFrame> {
    b.buffer@.filter(|f: InputFrame| f.instant + KICK_BUFFER_WINDOW_US >= now).filter(
        |f: InputFrame| spec_kick_press_ok(b.blocker, f),
    ).filter(|f: InputFrame| spec_kick_dir_ok(b.blocker, f))
}

/// The horizontal dive speed the kick sets for the trigger-frame input
/// `x`: nine tenths of the dive speed, toward the input's side, and zero
/// for a purely vertical input.
pub open spec fn spec_kick_vx(kick_speed: int, x: int) -> int {
    spec_sign(x) * ((kick_speed * 9) / 10)
}

/// Whether the trigger resets the horizontal velocity: it does unless the
/// player already dives faster than the kick speed in the input's own
/// direction.
pub open spec fn spec_kick_retargets(vx: int, x: int, kick_speed: int) -> bool {
    spec_sign(vx) * spec_sign(x) < 0 || spec_abs(vx) < kick_speed
}

/// The dive velocity the trigger sets: the horizontal component biased
/// toward the input `x`, the vertical one straight down at dive speed, the
/// pair then rescaled to magnitude `kick_speed` — the consistent dive
/// angle.
pub open spec fn spec_kick_dive(vx: int, x: int, kick_speed: int) -> (int, int) {
    let vx1 = if spec_kick_retargets(vx, x, kick_speed) {
        spec_kick_vx(kick_speed, x)
    } else {
        vx
    };
    let vy1 = -kick_speed;
    let l = crate::fixed::spec_isqrt(vx1 * vx1 + vy1 * vy1);
    (spec_scale(vx1, kick_speed, l), spec_scale(vy1, kick_speed, l))
}

/// What one kick tick asks of its surroundings.
pub struct KickOut {
    /// The tick consumed the buffered trigger gesture.
    pub consumed: bool,
    /// The tick blocked all input (the dive begins).
    pub block_all: bool,
    /// The tick cleared the blocking mask (the dive is over).
    pub clear_blocker: bool,
    /// The tick recorded a hit and re-triggered the jump.
    pub hit_registered: bool,
}

/// A tick that asks nothing.
pub open spec fn spec_kick_out_none() -> KickOut {
    KickOut { consumed: false, block_all: false, clear_blocker: false, hit_registered: false }
}

/// One kick step over plain values:
/// `(kick, jump, velocity, gravity_milli, out)` after a tick. `trigger`
/// carries the earliest buffered trigger frame, already gated on the air
/// jump being spent; `probe_hit` is the dive probe's outcome. A trigger
/// starts the dive and suspends gravity; grounding cancels it without
/// reward; a hit ends it, re-triggers the jump's active stage and gives
/// the air jump back.
pub open spec fn spec_kick_step(
    state: Kick,
    jump: Jump,
    vel: Velocity,
    gravity_milli: int,
    grounded: bool,
    trigger: Option<InputFrame>,
    probe_hit: bool,
) -> (Kick, Jump, Velocity, int, KickOut) {
    match state.stage {
        Stage::Dormant => {
            match trigger {
                Some(f) => {
                    let dive = spec_kick_dive(vel.x as int, f.dir_x as int, state.kick_speed as int);
                    (
                        Kick { stage: Stage::Active, ..state },
                        jump,
                        Velocity { x: dive.0 as i64, y: dive.1 as i64 },
                        0,
                        KickOut { consumed: true, block_all: true, ..spec_kick_out_none() },
                    )
                },
                None => (state, jump, vel, gravity_milli, spec_kick_out_none()),
            }
        },
        Stage::Active => {
            if grounded {
                (
                    Kick { stage: Stage::Dormant, ..state },
                    jump,
                    vel,
                    GRAVITY_NORMAL_MILLI as int,
                    KickOut { clear_blocker: true, ..spec_kick_out_none() },
                )
            } else if probe_hit {
                (
                    Kick { stage: Stage::Dormant, ..state },
                    Jump {
                        stage: crate::jump::Stage::Active,
                        has_air_jumped: false,
                        force: jump.force,
                    },
                    Velocity { x: vel.x, y: jump.force },
                    GRAVITY_NORMAL_MILLI as int,
                    KickOut { clear_blocker: true, hit_registered: true, ..spec_kick_out_none() },
                )
            } else {
                (state, jump, vel, gravity_milli, spec_kick_out_none())
            }
        },
    }
}

impl Kick {
    /// A dormant kick with the given dive speed, milli-units per second.
    pub fn new(kick_speed: i64) -> (r: Kick)
        requires
            0 < kick_speed <= 10_000_000,
        ensures
            r.stage is Dormant,
            r.kick_speed == kick_speed,
            spec_kick_well_formed(r),
    {
        Kick { stage: Stage::Dormant, kick_speed }
    }

    /// Moves to `stage`; the dive speed is untouched.
    pub fn set_stage(&mut self, stage: Stage)
        ensures
            final(self).stage == stage,
            final(self).kick_speed == old(self).kick_speed,
    {
        self.stage = stage;
    }

    /// Whether the kick is active.
    pub fn is_active(&self) -> (r: bool)
        ensures
            r == (self.stage is Active),
    {
        matches!(self.stage, Stage::Active)
    }

    /// The earliest buffered kick trigger frame, consuming the whole
    /// history when one is found: a jump press inside the window paired
    /// with a downward direction, neither blocked.
    fn take_trigger(buffer: &mut InputBuffer, now_us: u64) -> (r: Option<InputFrame>)
        ensures
            final(buffer).current_frame == old(buffer).current_frame,
            final(buffer).blocker == old(buffer).blocker,
            ({
                let frames = spec_kick_trigger_frames(*old(buffer), now_us);
                &&& frames.len() > 0 ==> r == Some(frames[0]) && final(buffer).buffer@
                    =~= Seq::<InputFrame>::empty()
                &&& frames.len() == 0 ==> r is None && final(buffer).buffer@ =~= old(
                    buffer,
                ).buffer@
            }),
    {
        let mut q = buffer.query();
        q.within_timeframe(now_us, KICK_BUFFER_WINDOW_US);
        let jp = Inputs::Jump.just_pressed();
        let mut presses: Vec<crate::inputs::InputType> = Vec::new();
        presses.push(jp);
        q.contains_any(presses);
        let dirs = InputDirection::DownRight.roll_clockwise(InputDirection::DownLeft);
        proof {
            assert(dirs@.len() == 3);
            assert(dirs@[0] == InputDirection::DownRight);
            assert(dirs@[1] == InputDirection::Down);
            assert(dirs@[2] == InputDirection::DownLeft);
        }
        q.contains_any(dirs);
        proof {
            let b = *buffer;
            assert((|f: InputFrame| f.instant + KICK_BUFFER_WINDOW_US >= now_us) =~= (
            |f: InputFrame| f.instant + KICK_BUFFER_WINDOW_US >= now_us));
            assert((|f: InputFrame|
                exists|k: int|
                    0 <= k < presses@.len() && !spec_mask_blocked(
                        b.blocker,
                        presses@[k].spec_blocker(),
                    ) && presses@[k].spec_matches(f)) =~= (|f: InputFrame|
                spec_kick_press_ok(b.blocker, f))) by {
                assert forall|f: InputFrame|
                    (exists|k: int|
                        0 <= k < presses@.len() && !spec_mask_blocked(
                            b.blocker,
                            presses@[k].spec_blocker(),
                        ) && presses@[k].spec_matches(f)) == spec_kick_press_ok(
                        b.blocker,
                        f,
                    ) by {
                    if spec_kick_press_ok(b.blocker, f) {
                        assert(!spec_mask_blocked(b.blocker, presses@[0].spec_blocker())
                            && presses@[0].spec_matches(f));
                    }
                }
            }
            assert((|f: InputFrame|
                exists|k: int|
                    0 <= k < dirs@.len() && !spec_mask_blocked(
                        b.blocker,
                        dirs@[k].spec_blocker(),
                    ) && dirs@[k].spec_matches(f)) =~= (|f: InputFrame|
                spec_kick_dir_ok(b.blocker, f))) by {
                assert forall|f: InputFrame|
                    (exists|k: int|
                        0 <= k < dirs@.len() && !spec_mask_blocked(
                            b.blocker,
                            dirs@[k].spec_blocker(),
                        ) && dirs@[k].spec_matches(f)) == spec_kick_dir_ok(b.blocker, f) by {
                    if spec_kick_dir_ok(b.blocker, f) {
                        if f.direction == InputDirection::DownRight && !spec_mask_blocked(
                            b.blocker,
                            Blocker(Blocker::DOWN_RIGHT),
                        ) {
                            assert(!spec_mask_blocked(b.blocker, dirs@[0].spec_blocker())
                                && dirs@[0].spec_matches(f));
                        } else if f.direction == InputDirection::Down && !spec_mask_blocked(
                            b.blocker,
                            Blocker(Blocker::DOWN),
                        ) {
                            assert(!spec_mask_blocked(b.blocker, dirs@[1].spec_blocker())
                                && dirs@[1].spec_matches(f));
                        } else {
                            assert(!spec_mask_blocked(b.blocker, dirs@[2].spec_blocker())
                                && dirs@[2].spec_matches(f));
                        }
                    }
                }
            }
            assert(q.frames@ == spec_kick_trigger_frames(*buffer, now_us));
        }
        q.consume_recent(buffer)
    }

    /// The hit probe of an active kick for a body centered at `(x, y)`: a
    /// half-height rectangle ahead of and below the body, toward the
    /// facing side, filtered to the enemy layer.
    pub fn kick_probe(body: &Body, x: i64, y: i64, facing: &FacingDirection) -> (r: Probe)
        requires
            spec_body_well_formed(*body),
            spec_facing_well_formed(*facing),
            -0x4000_0000 <= x <= 0x4000_0000,
            -0x4000_0000 <= y <= 0x4000_0000,
        ensures
            r.rect.width == body.width,
            r.rect.height == body.height / 2,
            r.x == x + body.width / 4 * facing.dir,
            r.y == y - body.height / 4,
            r.filter.mask == ENEMY,
    {
        Probe {
            rect: Rect { width: body.width, height: body.height / 2 },
            x: x + body.width / 4 * facing.dir,
            y: y - body.height / 4,
            filter: CollisionGroup::filter(ENEMY),
        }
    }
}

/// The dive velocity for the trigger-frame input `x`, rescaled to
/// magnitude `kick_speed` exactly as `spec_kick_dive` says.
fn dive_velocity(vx: i64, x: i64, kick_speed: i64) -> (r: (i64, i64))
    requires
        -100_000_000 <= vx <= 100_000_000,
        0 < kick_speed <= 10_000_000,
    ensures
        r.0 as int == spec_kick_dive(vx as int, x as int, kick_speed as int).0,
        r.1 as int == spec_kick_dive(vx as int, x as int, kick_speed as int).1,
        -100_000_000 <= r.0 <= 100_000_000,
        -10_000_000 <= r.1 <= 0,
{
    let ks = kick_speed;
    let retarget = crate::fixed::sign64(vx) * crate::fixed::sign64(x) < 0 || crate::fixed::abs64(
        vx,
    ) < ks;
    let vx1: i64 = if retarget {
        crate::fixed::sign64(x) * ((ks * 9) / 10)
    } else {
        vx
    };
    let vy1: i64 = -ks;
    proof {
        assert(0 <= (vx1 as int) * (vx1 as int) <= 10_000_000_000_000_000 && 0 <= (vy1 as int) * (
        vy1 as int) <= 100_000_000_000_000) by (nonlinear_arith)
            requires
                -100_000_000 <= vx1 as int <= 100_000_000,
                -10_000_000 <= vy1 as int <= 0,
        ;
    }
    let sx: i64 = vx1 * vx1;
    let sy: i64 = vy1 * vy1;
    let n: u64 = (sx as u64) + (sy as u64);
    let l: u64 = crate::fixed::isqrt(n);
    proof {
        assert((ks as int) * (ks as int) <= n as int) by (nonlinear_arith)
            requires
                n as int == (vx1 as int) * (vx1 as int) + (vy1 as int) * (vy1 as int),
                vy1 as int == -(ks as int),
                0 <= (vx1 as int) * (vx1 as int),
        ;
        assert(ks <= l) by (nonlinear_arith)
            requires
                (ks as int) * (ks as int) <= n as int,
                n < (l + 1) * (l + 1),
                0 < ks,
                0 <= l,
        ;
        crate::fixed::lemma_scale_magnitude(vx1 as int, ks as int, l as int);
        crate::fixed::lemma_scale_magnitude(vy1 as int, ks as int, l as int);
    }
    let rx = crate::fixed::scale(vx1, ks as u64, l);
    let ry = crate::fixed::scale(vy1, ks as u64, l);
    (rx, ry)
}

/// One kick tick: runs `spec_kick_step` on the live state, taking the
/// trigger from the buffered history — gated on the spent air jump — and
/// applying the step's blocking and gravity requests. On a hit it writes
/// the jump's active stage and restores the air jump, so this tick must
/// run before the jump's.
pub fn kicking_tick(
    vel: &mut Velocity,
    buffer: &mut InputBuffer,
    jump: &mut Jump,
    state: &mut Kick,
    grounded: &Grounded,
    gravity_milli: &mut i64,
    now_us: u64,
    probe_hit: bool,
) -> (hit: bool)
    requires
        spec_kick_well_formed(*old(state)),
        spec_jump_well_formed(*old(jump)),
        -100_000_000 <= old(vel).x <= 100_000_000,
    ensures
        final(buffer).current_frame == old(buffer).current_frame,
        ({
            let frames = spec_kick_trigger_frames(*old(buffer), now_us);
            let trigger = if old(jump).has_air_jumped && old(state).stage is Dormant
                && frames.len() > 0 {
                Some(frames[0])
            } else {
                None
            };
            let step = spec_kick_step(
                *old(state),
                *old(jump),
                *old(vel),
                (*old(gravity_milli)) as int,
                grounded.in_state,
                trigger,
                probe_hit,
            );
            &&& *final(state) == step.0
            &&& *final(jump) == step.1
            &&& *final(vel) == step.2
            &&& (*final(gravity_milli)) as int == step.3
            &&& hit == step.4.hit_registered
            &&& final(buffer).buffer@ == if step.4.consumed {
                Seq::<InputFrame>::empty()
            } else {
                old(buffer).buffer@
            }
            &&& final(buffer).blocker == if step.4.block_all {
                Blocker(Blocker::ALL)
            } else if step.4.clear_blocker {
                Blocker(Blocker::NONE)
            } else {
                old(buffer).blocker
            }
        }),
{
    match state.stage {
        Stage::Dormant => {
            if jump.has_air_jumped() {
                match Kick::take_trigger(buffer, now_us) {
                    Some(frame) => {
                        buffer.block_all();
                        state.set_stage(Stage::Active);
                        *gravity_milli = 0;
                        let dive = dive_velocity(vel.x, frame.dir_x, state.kick_speed);
                        vel.x = dive.0;
                        vel.y = dive.1;
                        false
                    },
                    None => false,
                }
            } else {
                false
            }
        },
        Stage::Active => {
            if grounded.check() {
                state.set_stage(Stage::Dormant);
                *gravity_milli = GRAVITY_NORMAL_MILLI;
                buffer.clear_blocker();
                false
            } else if probe_hit {
                state.set_stage(Stage::Dormant);
                buffer.clear_blocker();
                *gravity_milli = GRAVITY_NORMAL_MILLI;
                jump.set_stage(crate::jump::Stage::Active);
                vel.y = jump.force();
                jump.reset_air_jump();
                true
            } else {
                false
            }
        },
    }
}

/// The environment one kick step sees.
pub struct KickEnv {
    pub grounded: bool,
    pub trigger: Option<InputFrame>,
    pub probe_hit: bool,
}

/// The kick state after running the steps of `envs` in order, carrying
/// the jump, velocity and gravity along.
pub open spec fn spec_kick_run(
    k: Kick,
    j: Jump,
    v: Velocity,
    g: int,
    envs: Seq<KickEnv>,
) -> (Kick, Jump, Velocity, int)
    decreases envs.len(),
{
    if envs.len() == 0 {
        (k, j, v, g)
    } else {
        let e = envs[0];
        let step = spec_kick_step(k, j, v, g, e.grounded, e.trigger, e.probe_hit);
        spec_kick_run(step.0, step.1, step.2, step.3, envs.drop_first())
    }
}

/// How many of the steps of `envs` record a hit.
pub open spec fn spec_kick_run_hits(
    k: Kick,
    j: Jump,
    v: Velocity,
    g: int,
    envs: Seq<KickEnv>,
) -> int
    decreases envs.len(),
{
    if envs.len() == 0 {
        0
    } else {
        let e = envs[0];
        let step = spec_kick_step(k, j, v, g, e.grounded, e.trigger, e.probe_hit);
        (if step.4.hit_registered {
            1int
        } else {
            0int
        }) + spec_kick_run_hits(step.0, step.1, step.2, step.3, envs.drop_first())
    }
}

/// A dormant kick records no hit while no trigger arrives.
pub proof fn lemma_kick_dormant_no_hit(k: Kick, j: Jump, v: Velocity, g: int, envs: Seq<KickEnv>)
    requires
        k.stage is Dormant,
        forall|i: int| 0 <= i < envs.len() ==> (#[trigger] envs[i]).trigger is None,
    ensures
        spec_kick_run_hits(k, j, v, g, envs) == 0,
    decreases envs.len(),
{
    if envs.len() > 0 {
        let e = envs[0];
        let step = spec_kick_step(k, j, v, g, e.grounded, e.trigger, e.probe_hit);
        lemma_kick_dormant_no_hit(step.0, step.1, step.2, step.3, envs.drop_first());
    }
}

/// At most one hit per activation: a run of kick steps during which no
/// fresh trigger arrives records at most one hit — the first hit ends the
/// dive, and a dormant kick cannot hit.
pub proof fn lemma_kick_single_hit(k: Kick, j: Jump, v: Velocity, g: int, envs: Seq<KickEnv>)
    requires
        forall|i: int| 0 <= i < envs.len() ==> (#[trigger] envs[i]).trigger is None,
    ensures
        spec_kick_run_hits(k, j, v, g, envs) <= 1,
    decreases envs.len(),
{
    if envs.len() > 0 {
        let e = envs[0];
        let step = spec_kick_step(k, j, v, g, e.grounded, e.trigger, e.probe_hit);
        if step.4.hit_registered {
            assert(step.0.stage is Dormant);
            lemma_kick_dormant_no_hit(step.0, step.1, step.2, step.3, envs.drop_first());
        } else {
            lemma_kick_single_hit(step.0, step.1, step.2, step.3, envs.drop_first());
        }
    }
}


/// Blocked input is inert: while the jump input is blocked, no buffered
/// gesture can trigger the kick, so a dormant kick stays dormant whatever
/// the buffer holds.
pub proof fn lemma_blocked_jump_inert_kick(b: InputBuffer, now: u64)
    requires
        spec_mask_blocked(b.blocker, Blocker(Blocker::JUMP)),
    ensures
        spec_kick_trigger_frames(b, now).len() == 0,
{
    let windowed = b.buffer@.filter(|f: InputFrame| f.instant + KICK_BUFFER_WINDOW_US >= now);
    let pressed = windowed.filter(|f: InputFrame| spec_kick_press_ok(b.blocker, f));
    if pressed.len() > 0 {
        windowed.lemma_filter_pred(|f: InputFrame| spec_kick_press_ok(b.blocker, f), 0);
        assert(false);
    }
    pressed.lemma_filter_len(|f: InputFrame| spec_kick_dir_ok(b.blocker, f));
}

} // verus!
