//! Input frames.
//!
//! An `InputFrame` is an immutable snapshot of every logical action's state
//! at one instant, together with the quantized direction and the raw axis
//! vector. Instants are in microseconds, axis components in milli-units.

use vstd::prelude::*;

use crate::directions::InputDirection;
use crate::inputs::Inputs;

verus! {

/// The state of one logical action within a frame. Durations are in
/// microseconds and record how long the action has been (or had been) held.
#[derive(Clone, Copy, PartialEq, Eq, Structural, Debug)]
pub enum InputState {
    JustPressed,
    Pressed { duration: u64 },
    JustReleased { duration: u64 },
    Released,
}

/// True when `a` and `b` are the same kind of state, durations ignored.
pub open spec fn spec_same_kind(a: InputState, b: InputState) -> bool {
    match (a, b) {
        (InputState::JustPressed, InputState::JustPressed) => true,
        (InputState::Pressed { .. }, InputState::Pressed { .. }) => true,
        (InputState::JustReleased { .. }, InputState::JustReleased { .. }) => true,
        (InputState::Released, InputState::Released) => true,
        _ => false,
    }
}

impl InputState {
    /// Compares state kinds, ignoring durations.
    pub fn same_kind(&self, other: &InputState) -> (r: bool)
        ensures
            r == spec_same_kind(*self, *other),
    {
        match (self, other) {
            (InputState::JustPressed, InputState::JustPressed) => true,
            (InputState::Pressed { .. }, InputState::Pressed { .. }) => true,
            (InputState::JustReleased { .. }, InputState::JustReleased { .. }) => true,
            (InputState::Released, InputState::Released) => true,
            _ => false,
        }
    }
}

/// A snapshot of every tracked action at one instant.
#[derive(Clone, Copy, PartialEq, Eq, Structural, Debug)]
pub struct InputFrame {
    /// Creation time, microseconds.
    pub instant: u64,
    pub jump: InputState,
    pub primary: InputState,
    pub secondary: InputState,
    pub special: InputState,
    pub direction: InputDirection,
    /// Raw horizontal axis, milli-units in `[-1000, 1000]`.
    pub dir_x: i64,
    /// Raw vertical axis, milli-units in `[-1000, 1000]`.
    pub dir_y: i64,
}

/// The state the frame records for the action `input`; `Released` for the
/// two actions that carry no button state.
pub open spec fn spec_state_of(frame: InputFrame, input: Inputs) -> InputState {
    match input {
        Inputs::Jump => frame.jump,
        Inputs::Primary => frame.primary,
        Inputs::Secondary => frame.secondary,
        Inputs::Special => frame.special,
        Inputs::Pause => InputState::Released,
        Inputs::Directional => InputState::Released,
    }
}

impl InputFrame {
    /// A frame with every action released and a neutral direction, at
    /// instant zero.
    pub fn new() -> (r: InputFrame)
        ensures
            r.instant == 0,
            r.jump == InputState::Released,
            r.primary == InputState::Released,
            r.secondary == InputState::Released,
            r.special == InputState::Released,
            r.direction == InputDirection::Neutral,
            r.dir_x == 0,
            r.dir_y == 0,
    {
        InputFrame {
            instant: 0,
            jump: InputState::Released,
            primary: InputState::Released,
            secondary: InputState::Released,
            special: InputState::Released,
            direction: InputDirection::Neutral,
            dir_x: 0,
            dir_y: 0,
        }
    }

    /// The state recorded for `input`.
    fn state_of(&self, input: Inputs) -> (r: InputState)
        ensures
            r == spec_state_of(*self, input),
    {
        match input {
            Inputs::Jump => self.jump,
            Inputs::Primary => self.primary,
            Inputs::Secondary => self.secondary,
            Inputs::Special => self.special,
            Inputs::Pause => InputState::Released,
            Inputs::Directional => InputState::Released,
        }
    }

    /// True when `input` was pressed on this very frame. Always false for
    /// the directional and pause actions.
    pub fn just_pressed(&self, input: Inputs) -> (r: bool)
        ensures
            r == (!(input is Pause) && !(input is Directional) && spec_state_of(*self, input)
                is JustPressed),
    {
        match input {
            Inputs::Pause => false,
            Inputs::Directional => false,
            _ => matches!(self.state_of(input), InputState::JustPressed),
        }
    }

    /// True when `input` is held. Always false for the directional and
    /// pause actions.
    pub fn pressed(&self, input: Inputs) -> (r: bool)
        ensures
            r == (!(input is Pause) && !(input is Directional) && spec_state_of(*self, input)
                is Pressed),
    {
        match input {
            Inputs::Pause => false,
            Inputs::Directional => false,
            _ => matches!(self.state_of(input), InputState::Pressed { .. }),
        }
    }

    /// True when `input` was released on this very frame. Always false for
    /// the directional and pause actions.
    pub fn just_released(&self, input: Inputs) -> (r: bool)
        ensures
            r == (!(input is Pause) && !(input is Directional) && spec_state_of(*self, input)
                is JustReleased),
    {
        match input {
            Inputs::Pause => false,
            Inputs::Directional => false,
            _ => matches!(self.state_of(input), InputState::JustReleased { .. }),
        }
    }

    /// True when `input` rests released. Always false for the directional
    /// and pause actions.
    pub fn released(&self, input: Inputs) -> (r: bool)
        ensures
            r == (!(input is Pause) && !(input is Directional) && spec_state_of(*self, input)
                is Released),
    {
        match input {
            Inputs::Pause => false,
            Inputs::Directional => false,
            _ => matches!(self.state_of(input), InputState::Released),
        }
    }

    /// True when the frame's quantized direction equals `direction`.
    pub fn check_direction(&self, direction: InputDirection) -> (r: bool)
        ensures
            r == (self.direction == direction),
    {
        self.direction == direction
    }

    /// The frame's quantized direction.
    pub fn direction(&self) -> (r: InputDirection)
        ensures
            r == self.direction,
    {
        self.direction
    }

    /// Raw horizontal axis, milli-units.
    pub fn x(&self) -> (r: i64)
        ensures
            r == self.dir_x,
    {
        self.dir_x
    }

    /// Raw vertical axis, milli-units.
    pub fn y(&self) -> (r: i64)
        ensures
            r == self.dir_y,
    {
        self.dir_y
    }

    /// Raw axis pair, milli-units.
    pub fn xy(&self) -> (r: (i64, i64))
        ensures
            r.0 == self.dir_x,
            r.1 == self.dir_y,
    {
        (self.dir_x, self.dir_y)
    }
}

} // verus!
