//! Logical input actions.
//!
//! `Inputs` names the actions the player can perform; `InputType` pairs an
//! action with an expected state so that a query can look for, say, a jump
//! press or a special release in the buffered history.

use vstd::prelude::*;

use crate::blocker::Blockable;
use crate::blocker::Blocker;
use crate::input_frame::spec_same_kind;
use crate::input_frame::InputFrame;
use crate::input_frame::InputState;
use crate::input_query::InputLike;

verus! {

/// The logical input actions.
#[derive(Clone, Copy, PartialEq, Eq, Structural, Debug)]
pub enum Inputs {
    Directional,
    Jump,
    Primary,
    Secondary,
    Special,
    Pause,
}

/// An action paired with an expected state kind, used as a query filter.
#[derive(Clone, Copy, PartialEq, Eq, Structural, Debug)]
pub struct InputType {
    pub input: Inputs,
    pub state: InputState,
}

/// True when `frame` records for `t.input` a state of the same kind as
/// `t.state`. The directional and pause actions match no frame.
pub open spec fn spec_type_matches(t: InputType, frame: InputFrame) -> bool {
    match t.input {
        Inputs::Jump => spec_same_kind(frame.jump, t.state),
        Inputs::Primary => spec_same_kind(frame.primary, t.state),
        Inputs::Secondary => spec_same_kind(frame.secondary, t.state),
        Inputs::Special => spec_same_kind(frame.special, t.state),
        Inputs::Pause => false,
        Inputs::Directional => false,
    }
}

impl InputLike for InputType {
    open spec fn spec_matches(&self, frame: InputFrame) -> bool {
        spec_type_matches(*self, frame)
    }

    fn matches(&self, frame: &InputFrame) -> (r: bool) {
        match self.input {
            Inputs::Jump => frame.jump.same_kind(&self.state),
            Inputs::Primary => frame.primary.same_kind(&self.state),
            Inputs::Secondary => frame.secondary.same_kind(&self.state),
            Inputs::Special => frame.special.same_kind(&self.state),
            Inputs::Pause => false,
            Inputs::Directional => false,
        }
    }
}

/// The mask an action blocks on: its own flag for a button, every
/// directional flag for the directional action, nothing for pause.
pub open spec fn spec_input_blocker(input: Inputs) -> Blocker {
    match input {
        Inputs::Jump => Blocker(Blocker::JUMP),
        Inputs::Primary => Blocker(Blocker::PRIMARY),
        Inputs::Secondary => Blocker(Blocker::SECONDARY),
        Inputs::Special => Blocker(Blocker::SPECIAL),
        Inputs::Directional => Blocker(0x0ff0),
        Inputs::Pause => Blocker(Blocker::NONE),
    }
}

impl Blockable for Inputs {
    open spec fn spec_blocker(&self) -> Blocker {
        spec_input_blocker(*self)
    }

    fn to_blocker(&self) -> (r: Blocker) {
        match self {
            Inputs::Jump => Blocker(Blocker::JUMP),
            Inputs::Primary => Blocker(Blocker::PRIMARY),
            Inputs::Secondary => Blocker(Blocker::SECONDARY),
            Inputs::Special => Blocker(Blocker::SPECIAL),
            Inputs::Directional => Blocker::directions(),
            Inputs::Pause => Blocker(Blocker::NONE),
        }
    }
}

impl Blockable for InputType {
    open spec fn spec_blocker(&self) -> Blocker {
        spec_input_blocker(self.input)
    }

    fn to_blocker(&self) -> (r: Blocker) {
        self.input.to_blocker()
    }
}

/// The frames of `b` that count as a buffered press of `action` at `now`:
/// the action pressed on the frame, inside the window `window_us`, and
/// none at all while the action is blocked. The nesting mirrors the query
/// the behaviors run.
pub open spec fn spec_press_frames(
    b: crate::buffer::InputBuffer,
    action: Inputs,
    window_us: u64,
    now: u64,
) -> Seq<InputFrame> {
    let matched = if crate::buffer::spec_mask_blocked(b.blocker, spec_input_blocker(action)) {
        Seq::<InputFrame>::empty()
    } else {
        b.buffer@.filter(
            |f: InputFrame|
                spec_type_matches(InputType { input: action, state: InputState::JustPressed }, f),
        )
    };
    matched.filter(|f: InputFrame| f.instant + window_us >= now)
}

impl Inputs {
    /// Every action the ingestion step tracks, pause excluded.
    pub fn all_actions() -> (r: Vec<Inputs>)
        ensures
            r@ =~= seq![
                Inputs::Directional,
                Inputs::Jump,
                Inputs::Primary,
                Inputs::Secondary,
                Inputs::Special,
            ],
    {
        let mut v: Vec<Inputs> = Vec::new();
        v.push(Inputs::Directional);
        v.push(Inputs::Jump);
        v.push(Inputs::Primary);
        v.push(Inputs::Secondary);
        v.push(Inputs::Special);
        v
    }

    /// A filter for this action being held.
    pub fn pressed(&self) -> (r: InputType)
        ensures
            r.input == *self,
            r.state == (InputState::Pressed { duration: 0u64 }),
    {
        InputType { input: *self, state: InputState::Pressed { duration: 0 } }
    }

    /// A filter for this action released on the frame itself.
    pub fn just_released(&self) -> (r: InputType)
        ensures
            r.input == *self,
            r.state == (InputState::JustReleased { duration: 0u64 }),
    {
        InputType { input: *self, state: InputState::JustReleased { duration: 0 } }
    }

    /// A filter for this action resting released.
    pub fn released(&self) -> (r: InputType)
        ensures
            r.input == *self,
            r.state == InputState::Released,
    {
        InputType { input: *self, state: InputState::Released }
    }

    /// A filter for this action pressed on the frame itself.
    pub fn just_pressed(&self) -> (r: InputType)
        ensures
            r.input == *self,
            r.state == InputState::JustPressed,
    {
        InputType { input: *self, state: InputState::JustPressed }
    }
}

} // verus!
