use metroidvania::animation::select_animation;
use metroidvania::animation::AnimSelection;
use metroidvania::animation::AnimationConfig;
use metroidvania::blocker::Blocker;
use metroidvania::body::Body;
use metroidvania::body::Velocity;
use metroidvania::buffer::InputBuffer;
use metroidvania::buffer::RawAxis;
use metroidvania::buffer::RawButton;
use metroidvania::buffer::RawInput;
use metroidvania::collision_groups::CollisionGroup;
use metroidvania::collision_groups::ENVIRONMENT;
use metroidvania::facing_direction::FacingDirection;
use metroidvania::fixed::clamp;
use metroidvania::fixed::isqrt;
use metroidvania::fixed::scale;
use metroidvania::geometry::rects_overlap;
use metroidvania::geometry::Rect;
use metroidvania::grounded::ContactNormal;
use metroidvania::grounded::Grounded;
use metroidvania::walk::walking_tick;
use metroidvania::walk::Stage;
use metroidvania::walk::Walk;

fn btn_released() -> RawButton {
    RawButton {
        just_pressed: false,
        pressed: false,
        just_released: false,
        current_duration: 0,
        previous_duration: 0,
    }
}

fn raw_with_axis(x: i64, y: i64, angle: i64) -> RawInput {
    RawInput {
        jump: btn_released(),
        primary: btn_released(),
        secondary: btn_released(),
        special: btn_released(),
        axis: Some(RawAxis { x_milli: x, y_milli: y, angle_cd: angle }),
    }
}

#[test]
fn walk_converges_to_max_speed_and_never_exceeds() {
    // Full right input for one second at sixty ticks per second against a
    // 500-unit speed limit with acceleration factor three.
    let mut walk = Walk::new(4300, 500_000, 3000);
    let mut vel = Velocity::zero();
    let mut buf = InputBuffer::new();
    buf.ingest(&raw_with_axis(1000, 0, 0), 0);
    for _ in 0..60 {
        walking_tick(&mut vel, &buf, &mut walk, None, None, 16_666);
        assert!(vel.x <= 500_000, "the speed limit is never exceeded");
    }
    assert_eq!(vel.x, 500_000, "one second of full input reaches the limit");
    assert!(matches!(walk.stage, Stage::Active));
}

#[test]
fn walk_decelerates_without_input() {
    let mut walk = Walk::new(4300, 500_000, 3000);
    let mut vel = Velocity { x: 300_000, y: 0 };
    let mut buf = InputBuffer::new();
    buf.ingest(&raw_with_axis(0, 0, 0), 0);
    walking_tick(&mut vel, &buf, &mut walk, None, None, 16_666);
    // One exponential-decay step: 300000 * 4300 * 16666 / 1e9 off.
    assert_eq!(vel.x, 300_000 - 21_499);
    assert!(matches!(walk.stage, Stage::Slowing));
    // Deceleration never flips the sign.
    for _ in 0..2000 {
        walking_tick(&mut vel, &buf, &mut walk, None, None, 16_666);
        assert!(vel.x >= 0);
    }
}

#[test]
fn walk_blocked_directional_input_decelerates() {
    let mut walk = Walk::new(4300, 500_000, 3000);
    let mut vel = Velocity { x: 300_000, y: 0 };
    let mut buf = InputBuffer::new();
    buf.ingest(&raw_with_axis(1000, 0, 0), 0);
    buf.block(Blocker::directions());
    walking_tick(&mut vel, &buf, &mut walk, None, None, 16_666);
    assert_eq!(vel.x, 300_000 - 21_499, "blocked input acts like no input");
    assert!(matches!(walk.stage, Stage::Slowing));
}

#[test]
fn walk_goes_dormant_when_standing() {
    let mut walk = Walk::new(4300, 500_000, 3000);
    let mut vel = Velocity { x: 500, y: 0 };
    let mut buf = InputBuffer::new();
    buf.ingest(&raw_with_axis(0, 0, 0), 0);
    walking_tick(&mut vel, &buf, &mut walk, None, None, 16_666);
    assert_eq!(vel.x, 500, "a near-standstill keeps its residue");
    assert!(walk.is_dormant());
}

#[test]
fn grounded_from_contact_normals() {
    let mut g = Grounded::new();
    let support = vec![ContactNormal { x: 0, y: 500 }, ContactNormal { x: 100, y: -500 }];
    g.update_from_contacts(&support);
    assert!(g.check());
    let none = vec![ContactNormal { x: 0, y: 500 }];
    g.update_from_contacts(&none);
    assert!(!g.check());
    g.update_from_contacts(&Vec::new());
    assert!(!g.check());
}

#[test]
fn grounded_probe_geometry() {
    let body = Body::new(100_000, 50_000, 7);
    let probe = Grounded::ground_probe(&body, 1000, 2000);
    assert_eq!(probe.rect.width, 42_500, "slightly narrower than the body");
    assert_eq!(probe.rect.height, 100);
    assert_eq!(probe.x, 1000);
    assert_eq!(probe.y, 2000 - 50_000);
    assert_eq!(probe.filter, CollisionGroup::filter(ENVIRONMENT));
    let mut g = Grounded::new();
    g.update_from_probe(true);
    assert!(g.check());
    g.update_from_probe(false);
    assert!(!g.check());
}

#[test]
fn facing_direction_follows_unblocked_input() {
    let mut f = FacingDirection::new();
    assert_eq!(f.get(), 1);
    assert!(f.right());
    f.update(-500, false);
    assert_eq!(f.get(), -1);
    assert!(f.left());
    // Inside the turn threshold nothing changes.
    f.update(80, false);
    assert_eq!(f.get(), -1);
    // Blocked directional input cannot turn the player.
    f.update(500, true);
    assert_eq!(f.get(), -1);
    f.update(500, false);
    assert_eq!(f.get(), 1);
}

#[test]
fn animation_advances_and_wraps() {
    let mut config = AnimationConfig::new(6, 8, 10);
    let mut index: usize = 6;
    // 10 fps: the frame fires every 100 ms.
    config.advance(&mut index, 50_000);
    assert_eq!(index, 6, "not yet due");
    config.advance(&mut index, 50_000);
    assert_eq!(index, 7);
    config.advance(&mut index, 100_000);
    assert_eq!(index, 8);
    config.advance(&mut index, 100_000);
    assert_eq!(index, 6, "the range wraps to its start");
    // An out-of-range index snaps back to the start.
    index = 40;
    config.advance(&mut index, 100_000);
    assert_eq!(index, 6);
    let single = AnimationConfig::single_frame(3);
    assert_eq!(single.start_index, 3);
    assert_eq!(single.end_index, 3);
    config.set_frames(10, 12);
    assert_eq!(config.start_index, 10);
    assert_eq!(config.end_index, 12);
    config.set_frames_from(single);
    assert_eq!(config.start_index, 3);
    config.set_fps(20);
    assert_eq!(config.frame_timer.duration_us, 50_000);
}

#[test]
fn animation_selection_reads_walk_stage() {
    let mut walk = Walk::new(4300, 500_000, 3000);
    let mut g = Grounded::new();
    g.start();
    walk.set_stage(Stage::Active);
    assert_eq!(select_animation(&walk, &g, 300_000), AnimSelection::Walking);
    walk.set_stage(Stage::Slowing);
    // Above 15 percent of the maximum the hard slowdown shows.
    assert_eq!(select_animation(&walk, &g, 100_000), AnimSelection::SlowingHard);
    assert_eq!(select_animation(&walk, &g, 75_000), AnimSelection::SlowingGently);
    walk.set_stage(Stage::Dormant);
    assert_eq!(select_animation(&walk, &g, 0), AnimSelection::Idle);
    g.stop();
    walk.set_stage(Stage::Active);
    assert_eq!(select_animation(&walk, &g, 300_000), AnimSelection::Idle);
}

#[test]
fn rect_overlap_is_strict() {
    let a = Rect { width: 10_000, height: 10_000 };
    let b = Rect { width: 10_000, height: 10_000 };
    assert!(rects_overlap(0, 0, a, 5000, 5000, b));
    // Touching edges do not count as overlap.
    assert!(!rects_overlap(0, 0, a, 10_000, 0, b));
    assert!(!rects_overlap(0, 0, a, 0, 10_000, b));
    assert!(!rects_overlap(0, 0, a, 50_000, 0, b));
    assert!(rects_overlap(0, 0, a, 9_999, 0, b));
}

#[test]
fn fixed_point_helpers() {
    assert_eq!(scale(-7, 1, 2), -3, "truncation toward zero");
    assert_eq!(scale(7, 1, 2), 3);
    assert_eq!(scale(300_000, 71_663_800, 1_000_000_000), 21_499);
    assert_eq!(clamp(700, -500, 500), 500);
    assert_eq!(clamp(-700, -500, 500), -500);
    assert_eq!(clamp(3, -500, 500), 3);
    assert_eq!(isqrt(0), 0);
    assert_eq!(isqrt(3), 1);
    assert_eq!(isqrt(4), 2);
    assert_eq!(isqrt(8_760_400_000_000), 2_959_797);
    assert_eq!(isqrt(u64::MAX), 4_294_967_295);
}

#[test]
fn layer_policy_channels() {
    assert_eq!(CollisionGroup::collider().memberships, 16);
    assert_eq!(CollisionGroup::collider().filters, ENVIRONMENT);
    assert_eq!(CollisionGroup::environment().filters, 16);
    assert_eq!(CollisionGroup::inactive().filters, 0);
    let hurt = CollisionGroup::hurtbox(metroidvania::collision_groups::PLAYER);
    assert_eq!(hurt.memberships, 2);
    assert_eq!(hurt.filters, 0, "a hurtbox is sensor-only");
}
