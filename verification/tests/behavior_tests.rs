use metroidvania::blocker::Blocker;
use metroidvania::body::Body;
use metroidvania::body::Velocity;
use metroidvania::buffer::InputBuffer;
use metroidvania::buffer::RawAxis;
use metroidvania::buffer::RawButton;
use metroidvania::buffer::RawInput;
use metroidvania::collision_groups::CollisionGroup;
use metroidvania::crouch::crouching_tick;
use metroidvania::crouch::Crouch;
use metroidvania::crouch::CrouchEffect;
use metroidvania::demo_slash::slashing_tick;
use metroidvania::demo_slash::DemoSlash;
use metroidvania::facing_direction::FacingDirection;
use metroidvania::grounded::Grounded;
use metroidvania::inputs::Inputs;
use metroidvania::jump::jumping_tick;
use metroidvania::jump::Jump;
use metroidvania::kick::kicking_tick;
use metroidvania::kick::Kick;
use metroidvania::shot::shot_tick;
use metroidvania::shot::Projectile;
use metroidvania::shot::Shot;
use metroidvania::slide::sliding_tick;
use metroidvania::slide::Slide;

fn btn_released() -> RawButton {
    RawButton {
        just_pressed: false,
        pressed: false,
        just_released: false,
        current_duration: 0,
        previous_duration: 0,
    }
}

fn btn_just_pressed() -> RawButton {
    RawButton {
        just_pressed: true,
        pressed: false,
        just_released: false,
        current_duration: 0,
        previous_duration: 0,
    }
}

fn raw_neutral() -> RawInput {
    RawInput {
        jump: btn_released(),
        primary: btn_released(),
        secondary: btn_released(),
        special: btn_released(),
        axis: Some(RawAxis { x_milli: 0, y_milli: 0, angle_cd: 0 }),
    }
}

fn raw_with_axis(x: i64, y: i64, angle: i64) -> RawInput {
    RawInput { axis: Some(RawAxis { x_milli: x, y_milli: y, angle_cd: angle }), ..raw_neutral() }
}

fn grounded(v: bool) -> Grounded {
    let mut g = Grounded::new();
    if v {
        g.start();
    }
    g
}

fn press_jump(buf: &mut InputBuffer, now: u64) {
    buf.ingest(&raw_neutral(), now);
    buf.ingest(&RawInput { jump: btn_just_pressed(), ..raw_neutral() }, now);
}

#[test]
fn jump_ground_takeoff_and_short_hop() {
    let mut buf = InputBuffer::new();
    let mut jump = Jump::new(500_000);
    let mut vel = Velocity::zero();
    press_jump(&mut buf, 0);
    jumping_tick(None, None, &grounded(true), &mut vel, &mut jump, &mut buf, 0);
    assert_eq!(vel.y, 500_000);
    assert!(!jump.has_air_jumped);
    assert_eq!(buf.buffer.len(), 0, "the press was consumed");
    // Past the apex the jump ends and the speed halves.
    vel.y = -10;
    jumping_tick(None, None, &grounded(false), &mut vel, &mut jump, &mut buf, 0);
    assert_eq!(vel.y, -5);
}

#[test]
fn air_jump_budget_is_grounded_gated() {
    let mut buf = InputBuffer::new();
    let mut jump = Jump::new(500_000);
    let mut vel = Velocity::zero();
    // Ground jump.
    press_jump(&mut buf, 0);
    jumping_tick(None, None, &grounded(true), &mut vel, &mut jump, &mut buf, 0);
    vel.y = -10;
    jumping_tick(None, None, &grounded(false), &mut vel, &mut jump, &mut buf, 0);
    // The one air jump succeeds and spends the budget.
    press_jump(&mut buf, 0);
    jumping_tick(None, None, &grounded(false), &mut vel, &mut jump, &mut buf, 0);
    assert_eq!(vel.y, 500_000);
    assert!(jump.has_air_jumped);
    vel.y = -10;
    jumping_tick(None, None, &grounded(false), &mut vel, &mut jump, &mut buf, 0);
    // A further mid-air press fails: nothing consumed, nothing moved.
    press_jump(&mut buf, 0);
    let history = buf.buffer.len();
    vel.y = 0;
    jumping_tick(None, None, &grounded(false), &mut vel, &mut jump, &mut buf, 0);
    assert_eq!(vel.y, 0);
    assert!(jump.has_air_jumped);
    assert_eq!(buf.buffer.len(), history, "the refused press stays buffered");
    // The next grounded tick restores the budget and the press fires.
    jumping_tick(None, None, &grounded(true), &mut vel, &mut jump, &mut buf, 0);
    assert_eq!(vel.y, 500_000);
    assert!(!jump.has_air_jumped);
}

#[test]
fn blocked_jump_press_cannot_trigger() {
    let mut buf = InputBuffer::new();
    let mut jump = Jump::new(500_000);
    let mut vel = Velocity::zero();
    press_jump(&mut buf, 0);
    buf.block(Blocker(Blocker::JUMP));
    jumping_tick(None, None, &grounded(true), &mut vel, &mut jump, &mut buf, 0);
    assert_eq!(vel.y, 0);
    assert!(buf.buffer.len() > 0, "nothing was consumed");
}

#[test]
fn crouch_collider_swap_round_trip() {
    let mut body = Body::new(100_000, 50_000, 7);
    let mut crouch = Crouch::new();
    let mut buf = InputBuffer::new();
    buf.ingest(&raw_with_axis(0, -1000, -9000), 0);
    let original_layers = CollisionGroup::collider();
    let eff = crouching_tick(
        None,
        &grounded(true),
        &mut body,
        &mut crouch,
        &buf,
        false,
        true,
        original_layers,
        42,
    );
    assert_eq!(eff, CrouchEffect::Entered { deactivate: 7, spawn: 42 });
    assert!(crouch.check());
    assert_eq!(body.collider_ref, 42);
    // Release down with clearance: the original collider comes back with
    // its layers bit for bit.
    buf.ingest(&raw_neutral(), 1000);
    let eff2 = crouching_tick(
        None,
        &grounded(true),
        &mut body,
        &mut crouch,
        &buf,
        false,
        true,
        CollisionGroup::inactive(),
        43,
    );
    assert_eq!(
        eff2,
        CrouchEffect::Restored { despawn: 42, reactivate: 7, layers: original_layers }
    );
    assert!(!crouch.check());
    assert_eq!(body.collider_ref, 7);
}

#[test]
fn standup_refused_under_obstruction() {
    let mut body = Body::new(100_000, 50_000, 7);
    let mut crouch = Crouch::new();
    let mut buf = InputBuffer::new();
    buf.ingest(&raw_with_axis(0, -1000, -9000), 0);
    crouching_tick(
        None,
        &grounded(true),
        &mut body,
        &mut crouch,
        &buf,
        false,
        true,
        CollisionGroup::collider(),
        42,
    );
    assert!(crouch.check());
    buf.ingest(&raw_neutral(), 1000);
    // A 20-unit-tall obstruction sits exactly at stand-up clearance
    // height: it overlaps the clearance probe, so standing is refused.
    let probe = Crouch::standup_probe(&body, 0, 0);
    let obstruction = metroidvania::geometry::Rect { width: 50_000, height: 20_000 };
    let blocked = metroidvania::geometry::rects_overlap(
        probe.x,
        probe.y,
        probe.rect,
        0,
        50_000 - 10_000,
        obstruction,
    );
    assert!(blocked);
    let eff = crouching_tick(
        None,
        &grounded(true),
        &mut body,
        &mut crouch,
        &buf,
        blocked,
        true,
        CollisionGroup::inactive(),
        43,
    );
    assert_eq!(eff, CrouchEffect::Hold);
    assert!(crouch.check(), "still crouching under the ceiling");
    assert_eq!(body.collider_ref, 42);
    // Once the obstruction clears, standing succeeds.
    let cleared = metroidvania::geometry::rects_overlap(
        probe.x,
        probe.y,
        probe.rect,
        0,
        90_000,
        obstruction,
    );
    assert!(!cleared);
    let eff2 = crouching_tick(
        None,
        &grounded(true),
        &mut body,
        &mut crouch,
        &buf,
        cleared,
        true,
        CollisionGroup::inactive(),
        43,
    );
    assert!(matches!(eff2, CrouchEffect::Restored { .. }));
    assert_eq!(body.collider_ref, 7);
}

#[test]
fn crouch_needs_ground_and_down() {
    let mut body = Body::new(100_000, 50_000, 7);
    let mut crouch = Crouch::new();
    let mut buf = InputBuffer::new();
    buf.ingest(&raw_with_axis(0, -1000, -9000), 0);
    // Airborne: no crouch.
    let eff = crouching_tick(
        None,
        &grounded(false),
        &mut body,
        &mut crouch,
        &buf,
        false,
        true,
        CollisionGroup::collider(),
        42,
    );
    assert_eq!(eff, CrouchEffect::Hold);
    assert!(!crouch.check());
    // Blocked down direction: no crouch either.
    buf.block(Blocker(Blocker::DOWN));
    let eff2 = crouching_tick(
        None,
        &grounded(true),
        &mut body,
        &mut crouch,
        &buf,
        false,
        true,
        CollisionGroup::collider(),
        42,
    );
    assert_eq!(eff2, CrouchEffect::Hold);
    assert!(!crouch.check());
}

#[test]
fn slide_dash_hits_at_most_once() {
    let mut buf = InputBuffer::new();
    let mut slide = Slide::new(500_000);
    let mut vel = Velocity::zero();
    let facing = FacingDirection::new();
    let mut crouch = Crouch::new();
    let mut body = Body::new(100_000, 50_000, 7);
    buf.ingest(&raw_with_axis(0, -1000, -9000), 0);
    crouching_tick(
        None,
        &grounded(true),
        &mut body,
        &mut crouch,
        &buf,
        false,
        true,
        CollisionGroup::collider(),
        42,
    );
    press_jump(&mut buf, 0);
    let hit0 = sliding_tick(&mut vel, &mut buf, &facing, &crouch, &mut slide, 1000, 0, false);
    assert!(!hit0);
    assert!(slide.check());
    assert_eq!(buf.blocker.get(), Blocker::ALL, "the dash blocks everything");
    assert_eq!(buf.buffer.len(), 0, "the trigger press was consumed");
    // The dash forces the velocity and records the first overlap.
    let hit1 = sliding_tick(&mut vel, &mut buf, &facing, &crouch, &mut slide, 10_000, 0, true);
    assert!(hit1);
    assert_eq!(vel.x, 500_000);
    // The same overlap on the next tick is not recorded again.
    let hit2 = sliding_tick(&mut vel, &mut buf, &facing, &crouch, &mut slide, 10_000, 0, true);
    assert!(!hit2);
    // The dash window expires into the settle, then the blocks clear.
    let hit3 = sliding_tick(&mut vel, &mut buf, &facing, &crouch, &mut slide, 150_000, 0, true);
    assert!(!hit3);
    sliding_tick(&mut vel, &mut buf, &facing, &crouch, &mut slide, 350_000, 0, true);
    assert!(!slide.check());
    assert_eq!(buf.blocker.get(), 0);
}

#[test]
fn slide_requires_crouching() {
    let mut buf = InputBuffer::new();
    let mut slide = Slide::new(500_000);
    let mut vel = Velocity::zero();
    let facing = FacingDirection::new();
    let crouch = Crouch::new();
    press_jump(&mut buf, 0);
    sliding_tick(&mut vel, &mut buf, &facing, &crouch, &mut slide, 1000, 0, false);
    assert!(!slide.check());
    assert!(buf.buffer.len() > 0, "standing: the press stays buffered");
}

#[test]
fn kick_dive_velocity_and_combo() {
    let mut buf = InputBuffer::new();
    let mut jump = Jump::new(500_000);
    let mut kick = Kick::new(2_200_000);
    let mut vel = Velocity::zero();
    let mut gravity: i64 = 1000;
    jump.has_air_jumped = true;
    // A buffered jump press with a straight-down component.
    buf.ingest(&raw_neutral(), 0);
    buf.ingest(
        &RawInput { jump: btn_just_pressed(), ..raw_with_axis(0, -1000, -9000) },
        0,
    );
    let hit0 = kicking_tick(
        &mut vel,
        &mut buf,
        &mut jump,
        &mut kick,
        &grounded(false),
        &mut gravity,
        0,
        false,
    );
    assert!(!hit0);
    assert!(kick.is_active());
    assert_eq!(gravity, 0, "gravity is suspended during the dive");
    assert_eq!(buf.blocker.get(), Blocker::ALL);
    // Pure downward input: the dive is straight down at kick speed.
    assert_eq!(vel.x, 0);
    assert_eq!(vel.y, -2_200_000);
    // Striking an enemy ends the dive and re-triggers the jump.
    let hit1 = kicking_tick(
        &mut vel,
        &mut buf,
        &mut jump,
        &mut kick,
        &grounded(false),
        &mut gravity,
        0,
        true,
    );
    assert!(hit1);
    assert!(!kick.is_active());
    assert_eq!(gravity, 1000);
    assert_eq!(buf.blocker.get(), 0);
    assert!(matches!(jump.stage, metroidvania::jump::Stage::Active));
    assert!(!jump.has_air_jumped, "the combo refreshes the air jump");
    assert_eq!(vel.y, 500_000);
}

#[test]
fn kick_diagonal_dive_keeps_magnitude() {
    let mut buf = InputBuffer::new();
    let mut jump = Jump::new(500_000);
    let mut kick = Kick::new(2_200_000);
    let mut vel = Velocity::zero();
    let mut gravity: i64 = 1000;
    jump.has_air_jumped = true;
    buf.ingest(&raw_neutral(), 0);
    buf.ingest(
        &RawInput { jump: btn_just_pressed(), ..raw_with_axis(-1000, -1000, -13500) },
        0,
    );
    kicking_tick(
        &mut vel,
        &mut buf,
        &mut jump,
        &mut kick,
        &grounded(false),
        &mut gravity,
        0,
        false,
    );
    assert!(kick.is_active());
    assert_eq!(vel.x, -1_471_722);
    assert_eq!(vel.y, -1_635_247);
    // The rescaled dive magnitude sits just under the kick speed.
    let sq = vel.x * vel.x + vel.y * vel.y;
    assert!(sq <= 2_200_000i64 * 2_200_000);
    assert!(sq > 2_199_000i64 * 2_199_000);
}

#[test]
fn kick_needs_spent_air_jump_and_down_input() {
    let mut buf = InputBuffer::new();
    let mut jump = Jump::new(500_000);
    let mut kick = Kick::new(2_200_000);
    let mut vel = Velocity::zero();
    let mut gravity: i64 = 1000;
    // Budget not spent: no kick.
    buf.ingest(&raw_neutral(), 0);
    buf.ingest(
        &RawInput { jump: btn_just_pressed(), ..raw_with_axis(0, -1000, -9000) },
        0,
    );
    kicking_tick(
        &mut vel,
        &mut buf,
        &mut jump,
        &mut kick,
        &grounded(false),
        &mut gravity,
        0,
        false,
    );
    assert!(!kick.is_active());
    // Budget spent but no downward component: still no kick.
    let mut buf2 = InputBuffer::new();
    jump.has_air_jumped = true;
    buf2.ingest(&raw_neutral(), 0);
    buf2.ingest(&RawInput { jump: btn_just_pressed(), ..raw_with_axis(1000, 0, 0) }, 0);
    kicking_tick(
        &mut vel,
        &mut buf2,
        &mut jump,
        &mut kick,
        &grounded(false),
        &mut gravity,
        0,
        false,
    );
    assert!(!kick.is_active());
}

#[test]
fn kick_grounding_cancels_without_reward() {
    let mut buf = InputBuffer::new();
    let mut jump = Jump::new(500_000);
    let mut kick = Kick::new(2_200_000);
    let mut vel = Velocity::zero();
    let mut gravity: i64 = 0;
    jump.has_air_jumped = true;
    kick.set_stage(metroidvania::kick::Stage::Active);
    buf.block_all();
    kicking_tick(
        &mut vel,
        &mut buf,
        &mut jump,
        &mut kick,
        &grounded(true),
        &mut gravity,
        0,
        true,
    );
    assert!(!kick.is_active());
    assert_eq!(gravity, 1000);
    assert_eq!(buf.blocker.get(), 0);
    assert!(jump.has_air_jumped, "no refresh on a grounded cancel");
    assert!(matches!(jump.stage, metroidvania::jump::Stage::Dormant));
}

#[test]
fn slash_windup_active_settle_and_latch() {
    let mut buf = InputBuffer::new();
    let mut slash = DemoSlash::new();
    let mut vel = Velocity { x: 300_000, y: 0 };
    buf.ingest(&raw_neutral(), 0);
    buf.ingest(&RawInput { primary: btn_just_pressed(), ..raw_neutral() }, 0);
    let h0 = slashing_tick(
        &mut vel,
        &mut buf,
        Inputs::Primary,
        &mut slash,
        &grounded(true),
        1000,
        0,
        false,
    );
    assert!(!h0);
    assert!(matches!(slash.stage, metroidvania::demo_slash::Stage::Windup));
    assert_eq!(buf.blocker.get(), Blocker::ALL, "a grounded windup blocks everything");
    assert_eq!(vel.x, 0, "a grounded windup freezes the player");
    // The windup expires into the active window.
    slashing_tick(
        &mut vel,
        &mut buf,
        Inputs::Primary,
        &mut slash,
        &grounded(true),
        100_000,
        0,
        false,
    );
    assert!(matches!(slash.stage, metroidvania::demo_slash::Stage::Active));
    // First overlap recorded, second suppressed by the latch.
    let h1 = slashing_tick(
        &mut vel,
        &mut buf,
        Inputs::Primary,
        &mut slash,
        &grounded(true),
        10_000,
        0,
        true,
    );
    assert!(h1);
    let h2 = slashing_tick(
        &mut vel,
        &mut buf,
        Inputs::Primary,
        &mut slash,
        &grounded(true),
        10_000,
        0,
        true,
    );
    assert!(!h2);
    // The active window expires into the settle and unblocks.
    slashing_tick(
        &mut vel,
        &mut buf,
        Inputs::Primary,
        &mut slash,
        &grounded(true),
        280_000,
        0,
        true,
    );
    assert!(matches!(slash.stage, metroidvania::demo_slash::Stage::Settle));
    assert_eq!(buf.blocker.get(), 0);
    slashing_tick(
        &mut vel,
        &mut buf,
        Inputs::Primary,
        &mut slash,
        &grounded(true),
        100_000,
        0,
        false,
    );
    assert!(matches!(slash.stage, metroidvania::demo_slash::Stage::Dormant));
}

#[test]
fn airborne_slash_blocks_buttons_only() {
    let mut buf = InputBuffer::new();
    let mut slash = DemoSlash::new();
    let mut vel = Velocity { x: 300_000, y: 0 };
    buf.ingest(&raw_neutral(), 0);
    buf.ingest(&RawInput { primary: btn_just_pressed(), ..raw_neutral() }, 0);
    slashing_tick(
        &mut vel,
        &mut buf,
        Inputs::Primary,
        &mut slash,
        &grounded(false),
        1000,
        0,
        false,
    );
    assert_eq!(buf.blocker.get(), Blocker::non_directional().get());
    assert_eq!(vel.x, 300_000, "airborne: the speed is kept");
}

#[test]
fn shot_fires_stalls_and_recovers() {
    let mut buf = InputBuffer::new();
    let mut shot = Shot::new();
    let mut vel = Velocity { x: 300_000, y: 0 };
    buf.ingest(&raw_neutral(), 0);
    buf.ingest(&RawInput { secondary: btn_just_pressed(), ..raw_neutral() }, 0);
    let spawn = shot_tick(&mut vel, &mut buf, Inputs::Secondary, &mut shot, &grounded(true), 1000, 0);
    assert!(spawn);
    assert!(matches!(shot.stage, metroidvania::shot::Stage::Stall));
    assert_eq!(buf.blocker.get(), Blocker::ALL);
    assert_eq!(vel.x, 0);
    // No second projectile during the stall.
    let spawn2 = shot_tick(&mut vel, &mut buf, Inputs::Secondary, &mut shot, &grounded(true), 1000, 0);
    assert!(!spawn2);
    // The stall expires and the blocks clear.
    let spawn3 = shot_tick(&mut vel, &mut buf, Inputs::Secondary, &mut shot, &grounded(true), 500_000, 0);
    assert!(!spawn3);
    assert!(matches!(shot.stage, metroidvania::shot::Stage::Dormant));
    assert_eq!(buf.blocker.get(), 0);
}

#[test]
fn projectile_advances_and_despawns_on_hit() {
    let mut p = Projectile::new(0, 1);
    let gone = p.projectile_tick(16_666, false);
    assert!(!gone);
    assert_eq!(p.x, 8333);
    let mut q = Projectile::new(0, -1);
    q.projectile_tick(16_666, false);
    assert_eq!(q.x, -8333);
    let gone2 = q.projectile_tick(16_666, true);
    assert!(gone2, "the first overlap despawns the projectile");
}

#[test]
fn blocked_action_cannot_start_slash() {
    let mut buf = InputBuffer::new();
    let mut slash = DemoSlash::new();
    let mut vel = Velocity::zero();
    buf.ingest(&raw_neutral(), 0);
    buf.ingest(&RawInput { primary: btn_just_pressed(), ..raw_neutral() }, 0);
    buf.block(Blocker(Blocker::PRIMARY));
    slashing_tick(
        &mut vel,
        &mut buf,
        Inputs::Primary,
        &mut slash,
        &grounded(true),
        1000,
        0,
        false,
    );
    assert!(matches!(slash.stage, metroidvania::demo_slash::Stage::Dormant));
    assert!(buf.buffer.len() > 0, "nothing was consumed");
}

#[test]
fn blocked_jump_cannot_start_slide() {
    let mut buf = InputBuffer::new();
    let mut slide = Slide::new(500_000);
    let mut vel = Velocity::zero();
    let facing = FacingDirection::new();
    let mut crouch = Crouch::new();
    let mut body = Body::new(100_000, 50_000, 7);
    buf.ingest(&raw_with_axis(0, -1000, -9000), 0);
    crouching_tick(
        None,
        &grounded(true),
        &mut body,
        &mut crouch,
        &buf,
        false,
        true,
        CollisionGroup::collider(),
        42,
    );
    press_jump(&mut buf, 0);
    buf.block(Blocker(Blocker::JUMP));
    sliding_tick(&mut vel, &mut buf, &facing, &crouch, &mut slide, 1000, 0, false);
    assert!(!slide.check());
    assert!(buf.buffer.len() > 0, "nothing was consumed");
}
