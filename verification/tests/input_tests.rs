use metroidvania::blocker::Blockable;
use metroidvania::blocker::Blocker;
use metroidvania::buffer::InputBuffer;
use metroidvania::buffer::RawAxis;
use metroidvania::buffer::RawButton;
use metroidvania::buffer::RawInput;
use metroidvania::directions::InputDirection;
use metroidvania::inputs::Inputs;

fn btn_released() -> RawButton {
    RawButton {
        just_pressed: false,
        pressed: false,
        just_released: false,
        current_duration: 0,
        previous_duration: 0,
    }
}

fn btn_just_pressed() -> RawButton {
    RawButton {
        just_pressed: true,
        pressed: false,
        just_released: false,
        current_duration: 0,
        previous_duration: 0,
    }
}

fn raw_neutral() -> RawInput {
    RawInput {
        jump: btn_released(),
        primary: btn_released(),
        secondary: btn_released(),
        special: btn_released(),
        axis: Some(RawAxis { x_milli: 0, y_milli: 0, angle_cd: 0 }),
    }
}

fn raw_with_axis(x: i64, y: i64, angle: i64) -> RawInput {
    RawInput { axis: Some(RawAxis { x_milli: x, y_milli: y, angle_cd: angle }), ..raw_neutral() }
}

fn raw_jump_pressed() -> RawInput {
    RawInput { jump: btn_just_pressed(), ..raw_neutral() }
}

#[test]
fn blocker_masks() {
    assert_eq!(Blocker::directions().get(), 0x0ff0);
    assert_eq!(Blocker::non_directional().get(), 0x000f);
    assert_eq!(
        Blocker::directions() | Blocker::non_directional(),
        Blocker(Blocker::directions().get() | 0x000f)
    );
    assert_eq!((Blocker(Blocker::JUMP) & Blocker(Blocker::SPECIAL)).get(), 0);
    assert_eq!((!Blocker(Blocker::NONE)).get(), Blocker::ALL);
    assert_eq!(Blocker(Blocker::UP).get(), 16);
    assert_eq!(Blocker(Blocker::UP_LEFT).get(), 2048);
}

#[test]
fn blockable_conversions() {
    assert_eq!(Inputs::Jump.to_blocker(), Blocker(Blocker::JUMP));
    assert_eq!(Inputs::Directional.to_blocker(), Blocker::directions());
    assert_eq!(Inputs::Pause.to_blocker(), Blocker(Blocker::NONE));
    assert_eq!(InputDirection::DownLeft.to_blocker(), Blocker(Blocker::DOWN_LEFT));
    assert_eq!(InputDirection::Neutral.to_blocker(), Blocker(Blocker::NONE));
}

#[test]
fn quantization_boundary_table() {
    // Every sector boundary, inclusive below and exclusive above.
    let cases: [(i64, InputDirection); 20] = [
        (2250, InputDirection::UpRight),
        (6749, InputDirection::UpRight),
        (6750, InputDirection::Up),
        (11249, InputDirection::Up),
        (11250, InputDirection::UpLeft),
        (15749, InputDirection::UpLeft),
        (15750, InputDirection::Left),
        (18000, InputDirection::Left),
        (-18000, InputDirection::Left),
        (-15751, InputDirection::Left),
        (-15750, InputDirection::DownLeft),
        (-11251, InputDirection::DownLeft),
        (-11250, InputDirection::Down),
        (-6751, InputDirection::Down),
        (-6750, InputDirection::DownRight),
        (-2251, InputDirection::DownRight),
        (-2250, InputDirection::Right),
        (0, InputDirection::Right),
        (2249, InputDirection::Right),
        (4500, InputDirection::UpRight),
    ];
    for (angle, expected) in cases {
        assert_eq!(InputDirection::from_angle(angle), expected, "angle {angle}");
    }
}

#[test]
fn quantization_deadzone() {
    // Inside the deadzone the angle is ignored.
    assert_eq!(InputDirection::from_raw(100, 100, 4500), InputDirection::Neutral);
    assert_eq!(InputDirection::from_raw(199, 0, 0), InputDirection::Neutral);
    // The deadzone boundary itself already quantizes.
    assert_eq!(InputDirection::from_raw(200, 0, 0), InputDirection::Right);
    assert_eq!(InputDirection::from_raw(-1000, 0, 18000), InputDirection::Left);
}

#[test]
fn roll_clockwise_spans() {
    let roll = InputDirection::DownRight.roll_clockwise(InputDirection::DownLeft);
    assert_eq!(roll, vec![InputDirection::DownRight, InputDirection::Down, InputDirection::DownLeft]);
    let wrap = InputDirection::Left.roll_clockwise(InputDirection::UpRight);
    assert_eq!(
        wrap,
        vec![
            InputDirection::Left,
            InputDirection::UpLeft,
            InputDirection::Up,
            InputDirection::UpRight
        ]
    );
    let full = InputDirection::Up.roll_clockwise(InputDirection::Up);
    assert_eq!(full.len(), 9);
    assert_eq!(full[0], InputDirection::Up);
    assert_eq!(full[8], InputDirection::Up);
}

#[test]
fn roll_counter_clockwise_spans() {
    let roll = InputDirection::DownLeft.roll_counter_clockwise(InputDirection::DownRight);
    assert_eq!(roll, vec![InputDirection::DownLeft, InputDirection::Down, InputDirection::DownRight]);
    let wrap = InputDirection::UpRight.roll_counter_clockwise(InputDirection::Left);
    assert_eq!(
        wrap,
        vec![
            InputDirection::UpRight,
            InputDirection::Up,
            InputDirection::UpLeft,
            InputDirection::Left
        ]
    );
}

#[test]
fn ingest_appends_only_on_meaningful_change() {
    let mut buf = InputBuffer::new();
    buf.ingest(&raw_neutral(), 0);
    // No action changed kind and the direction stayed neutral: no history.
    assert_eq!(buf.buffer.len(), 0);
    buf.ingest(&raw_jump_pressed(), 1000);
    assert_eq!(buf.buffer.len(), 1);
    // Same states again: the current frame refreshes, the history does not.
    let held = RawInput {
        jump: RawButton {
            just_pressed: true,
            pressed: false,
            just_released: false,
            current_duration: 5,
            previous_duration: 0,
        },
        ..raw_neutral()
    };
    buf.ingest(&held, 2000);
    assert_eq!(buf.buffer.len(), 1);
    assert_eq!(buf.current_frame.instant, 2000);
    // A direction change alone appends.
    let right = RawInput { jump: btn_just_pressed(), ..raw_with_axis(1000, 0, 0) };
    buf.ingest(&right, 3000);
    assert_eq!(buf.buffer.len(), 2);
    assert_eq!(buf.current_frame.direction(), InputDirection::Right);
}

#[test]
fn ingest_skips_tick_without_axis() {
    let mut buf = InputBuffer::new();
    buf.ingest(&raw_jump_pressed(), 0);
    let before = buf.current_frame;
    let no_axis = RawInput { axis: None, ..raw_neutral() };
    buf.ingest(&no_axis, 5000);
    assert_eq!(buf.buffer.len(), 1);
    assert_eq!(buf.current_frame, before);
}

#[test]
fn ingest_evicts_oldest_at_capacity() {
    let mut buf = InputBuffer::new();
    for i in 0..40u64 {
        // Alternate between two directions so every tick appends.
        let raw = if i % 2 == 0 {
            raw_with_axis(1000, 0, 0)
        } else {
            raw_with_axis(-1000, 0, 18000)
        };
        buf.ingest(&raw, i);
    }
    assert_eq!(buf.buffer.len(), 32);
    // The earliest ticks were evicted.
    assert_eq!(buf.buffer[0].instant, 8);
}

#[test]
fn frame_accessors() {
    let mut buf = InputBuffer::new();
    buf.ingest(&raw_jump_pressed(), 0);
    let frame = buf.this_frame();
    assert!(frame.just_pressed(Inputs::Jump));
    assert!(!frame.pressed(Inputs::Jump));
    assert!(!frame.just_released(Inputs::Jump));
    assert!(frame.released(Inputs::Primary));
    assert!(!frame.just_pressed(Inputs::Pause));
    assert!(frame.check_direction(InputDirection::Neutral));
    assert_eq!(frame.x(), 0);
    assert_eq!(frame.y(), 0);
    assert_eq!(frame.xy(), (0, 0));
}

#[test]
fn query_contains_and_consume() {
    let mut buf = InputBuffer::new();
    buf.ingest(&raw_jump_pressed(), 0);
    let mut q = buf.query();
    q.contains(Inputs::Jump.just_pressed());
    assert!(q.check());
    let mut q2 = buf.query();
    q2.contains(Inputs::Primary.just_pressed());
    assert!(!q2.check());
    // A failed query consumes nothing.
    assert!(!q2.consume(&mut buf));
    assert_eq!(buf.buffer.len(), 1);
    // A successful consume clears the whole history.
    let mut q3 = buf.query();
    q3.contains(Inputs::Jump.just_pressed());
    assert!(q3.consume(&mut buf));
    assert_eq!(buf.buffer.len(), 0);
}

#[test]
fn query_within_timeframe() {
    let mut buf = InputBuffer::new();
    buf.ingest(&raw_jump_pressed(), 0);
    let mut q = buf.query();
    q.contains(Inputs::Jump.just_pressed());
    q.within_timeframe(100_000, 200_000);
    assert!(q.check());
    let mut q2 = buf.query();
    q2.contains(Inputs::Jump.just_pressed());
    q2.within_timeframe(300_000, 200_000);
    assert!(!q2.check());
}

#[test]
fn query_blocked_contains_fails() {
    let mut buf = InputBuffer::new();
    buf.ingest(&raw_jump_pressed(), 0);
    buf.block(Blocker(Blocker::JUMP));
    let mut q = buf.query();
    q.contains(Inputs::Jump.just_pressed());
    assert!(!q.check());
    // Unrelated blocks leave the query alone.
    buf.clear_blocker();
    buf.block(Blocker(Blocker::SPECIAL));
    let mut q2 = buf.query();
    q2.contains(Inputs::Jump.just_pressed());
    assert!(q2.check());
}

#[test]
fn query_sequence_matches_direction_gestures() {
    let mut buf = InputBuffer::new();
    buf.ingest(&raw_with_axis(1000, 0, 0), 1000);
    buf.ingest(&raw_with_axis(0, -1000, -9000), 2000);
    buf.ingest(&raw_with_axis(-1000, 0, 18000), 3000);
    let mut q = buf.query();
    q.sequence(vec![InputDirection::Right, InputDirection::Down]);
    assert!(q.check());
    let mut q2 = buf.query();
    q2.sequence(vec![InputDirection::Right, InputDirection::Left]);
    assert!(!q2.check());
    let mut q3 = buf.query();
    q3.sequence(Vec::<InputDirection>::new());
    assert!(!q3.check());
    // A blocked element fails the whole sequence.
    buf.block(Blocker(Blocker::DOWN));
    let mut q4 = buf.query();
    q4.sequence(vec![InputDirection::Right, InputDirection::Down]);
    assert!(!q4.check());
}

#[test]
fn query_before_and_after_order_events() {
    let mut buf = InputBuffer::new();
    buf.ingest(&raw_with_axis(0, -1000, -9000), 1000);
    buf.ingest(&raw_jump_pressed(), 2000);
    // "Down held, then jump pressed": the frames after the down frame
    // must contain the press.
    let mut q = buf.query();
    q.contains(InputDirection::Down);
    q.before();
    q.contains(Inputs::Jump.just_pressed());
    assert!(q.check());
    // The press happened after the down, so nothing precedes it ... and
    // asking for a down after the press fails.
    let mut q2 = buf.query();
    q2.contains(Inputs::Jump.just_pressed());
    q2.before();
    q2.contains(InputDirection::Down);
    assert!(!q2.check());
    // `after` looks at the frames created before the match.
    let mut q3 = buf.query();
    q3.contains(Inputs::Jump.just_pressed());
    q3.after();
    q3.contains(InputDirection::Down);
    assert!(q3.check());
}

#[test]
fn query_and_restarts_on_success() {
    let mut buf = InputBuffer::new();
    buf.ingest(&raw_with_axis(0, -1000, -9000), 1000);
    buf.ingest(&raw_jump_pressed(), 2000);
    let mut q = buf.query();
    q.contains(InputDirection::Down);
    q.and();
    q.contains(Inputs::Jump.just_pressed());
    assert!(q.check());
    // A failed link keeps the chain failed.
    let mut q2 = buf.query();
    q2.contains(InputDirection::Up);
    q2.and();
    q2.contains(Inputs::Jump.just_pressed());
    assert!(!q2.check());
}

#[test]
fn query_recent_terminals() {
    let mut buf = InputBuffer::new();
    buf.ingest(&raw_with_axis(1000, 0, 0), 1000);
    buf.ingest(&raw_with_axis(0, -1000, -9000), 2000);
    let q = buf.query();
    let first = q.check_recent().expect("history is not empty");
    assert_eq!(first.instant, 1000);
    assert_eq!(buf.buffer.len(), 2);
    let taken = q.consume_recent(&mut buf).expect("history is not empty");
    assert_eq!(taken.instant, 1000);
    assert_eq!(buf.buffer.len(), 0);
    let empty = buf.query();
    assert!(empty.check_recent().is_none());
}

#[test]
fn buffer_is_and_any_respect_blocks() {
    let mut buf = InputBuffer::new();
    buf.ingest(&raw_with_axis(0, -1000, -9000), 0);
    assert!(buf.is(InputDirection::Down));
    assert!(!buf.is(InputDirection::Up));
    buf.block(Blocker(Blocker::DOWN));
    assert!(!buf.is(InputDirection::Down));
    buf.clear_blocker();
    assert!(buf.any(vec![InputDirection::Up, InputDirection::Down]));
    buf.block(Blocker::directions());
    assert!(!buf.any(vec![InputDirection::Up, InputDirection::Down]));
}

#[test]
fn blocking_is_cumulative_until_cleared() {
    let mut buf = InputBuffer::new();
    buf.block(Blocker(Blocker::JUMP));
    buf.block(Blocker(Blocker::DOWN));
    assert!(buf.blocked(Inputs::Jump));
    assert!(buf.blocked(InputDirection::Down));
    assert!(!buf.blocked(Inputs::Primary));
    buf.block_all();
    assert!(buf.blocked(Inputs::Primary));
    buf.clear_blocker();
    assert!(!buf.blocked(Inputs::Jump));
    assert_eq!(buf.blocker.get(), 0);
}

#[test]
fn all_actions_lists_tracked_inputs() {
    let actions = Inputs::all_actions();
    assert_eq!(
        actions,
        vec![
            Inputs::Directional,
            Inputs::Jump,
            Inputs::Primary,
            Inputs::Secondary,
            Inputs::Special
        ]
    );
}

#[test]
fn block_many_merges_masks() {
    let mut buf = InputBuffer::new();
    buf.block_many(vec![Inputs::Jump, Inputs::Directional]);
    assert_eq!(buf.blocker.get(), Blocker::JUMP | Blocker::directions().get());
    assert!(buf.blocked(Inputs::Jump));
    assert!(buf.blocked(InputDirection::UpLeft));
    assert!(!buf.blocked(Inputs::Special));
    // Merging again adds, never removes.
    buf.block_many(vec![Inputs::Special]);
    assert!(buf.blocked(Inputs::Jump));
    assert!(buf.blocked(Inputs::Special));
}

#[test]
fn query_filters_by_state_kind() {
    let mut buf = InputBuffer::new();
    // A press, then the hold of the same button.
    buf.ingest(
        &RawInput {
            jump: RawButton {
                just_pressed: true,
                pressed: false,
                just_released: false,
                current_duration: 0,
                previous_duration: 0,
            },
            ..raw_neutral()
        },
        1000,
    );
    buf.ingest(
        &RawInput {
            jump: RawButton {
                just_pressed: false,
                pressed: true,
                just_released: false,
                current_duration: 20_000,
                previous_duration: 0,
            },
            ..raw_neutral()
        },
        2000,
    );
    let mut q = buf.query();
    q.contains(Inputs::Jump.pressed());
    assert!(q.check(), "the hold frame matches the pressed filter");
    let mut q2 = buf.query();
    q2.contains(Inputs::Jump.just_released());
    assert!(!q2.check());
    assert!(buf.is(Inputs::Jump.pressed()));
    assert!(!buf.is(Inputs::Jump.released()));
}
