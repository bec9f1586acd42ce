//! The per-player input buffer.
//!
//! Holds a bounded history of input frames (oldest first, oldest evicted on
//! overflow), the freshest frame, and the blocking mask currently in force.
//! Ingestion runs once per tick: it always refreshes the current frame and
//! appends to the history only on a meaningful transition — some action's
//! state kind changed, or the quantized direction changed.

use vstd::prelude::*;

use crate::blocker::Blockable;
use crate::blocker::Blocker;
use crate::directions::spec_from_raw;
use crate::directions::InputDirection;
use crate::input_frame::spec_same_kind;
use crate::input_frame::InputFrame;
use crate::input_frame::InputState;
use crate::input_query::InputLike;
use crate::inputs::Inputs;
use crate::input_query::InputQuery;

verus! {

/// Most frames the history retains; the oldest is evicted beyond that.
pub const BUFFER_CAPACITY: usize = 32;

/// True when the mask `m` blocks any input designated by `b`.
pub open spec fn spec_mask_blocked(m: Blocker, b: Blocker) -> bool {
    (m.0 & b.0) != 0
}

/// The union of the masks of every input in `inputs`.
pub open spec fn spec_fold_blockers(inputs: Seq<Inputs>) -> u16
    decreases inputs.len(),
{
    if inputs.len() == 0 {
        0
    } else {
        spec_fold_blockers(inputs.drop_last()) | crate::inputs::spec_input_blocker(
            inputs.last(),
        ).0
    }
}

/// Extending the input list ors one more mask in.
proof fn lemma_fold_blockers_push(inputs: Seq<Inputs>, x: Inputs)
    ensures
        spec_fold_blockers(inputs.push(x)) == (spec_fold_blockers(inputs)
            | crate::inputs::spec_input_blocker(x).0),
{
    assert(inputs.push(x).drop_last() =~= inputs);
}

/// One action's raw device state for this tick, as the embedding read it.
/// Durations are in microseconds.
#[derive(Clone, Copy, PartialEq, Eq, Structural, Debug)]
pub struct RawButton {
    pub just_pressed: bool,
    pub pressed: bool,
    pub just_released: bool,
    /// How long the action has been held, meaningful while pressed.
    pub current_duration: u64,
    /// How long the action had been held, meaningful on release.
    pub previous_duration: u64,
}

/// The raw directional axis for this tick: clamped components in
/// milli-units and the polar angle the embedding measured, in hundredths
/// of a degree.
#[derive(Clone, Copy, PartialEq, Eq, Structural, Debug)]
pub struct RawAxis {
    pub x_milli: i64,
    pub y_milli: i64,
    pub angle_cd: i64,
}

/// The whole raw input snapshot for one tick. `axis` is `None` when no
/// directional axis reading was available this tick.
#[derive(Clone, Copy, PartialEq, Eq, Structural, Debug)]
pub struct RawInput {
    pub jump: RawButton,
    pub primary: RawButton,
    pub secondary: RawButton,
    pub special: RawButton,
    pub axis: Option<RawAxis>,
}

/// The input state a raw button reading denotes: a press edge wins, then a
/// hold, then a release edge, else released.
pub open spec fn spec_state_from_raw(b: RawButton) -> InputState {
    if b.just_pressed {
        InputState::JustPressed
    } else if b.pressed {
        InputState::Pressed { duration: b.current_duration }
    } else if b.just_released {
        InputState::JustReleased { duration: b.previous_duration }
    } else {
        InputState::Released
    }
}

/// The frame that ingesting `raw` at `now_us` produces, given an axis
/// reading.
pub open spec fn spec_frame_from_raw(raw: RawInput, axis: RawAxis, now_us: u64) -> InputFrame {
    InputFrame {
        instant: now_us,
        jump: spec_state_from_raw(raw.jump),
        primary: spec_state_from_raw(raw.primary),
        secondary: spec_state_from_raw(raw.secondary),
        special: spec_state_from_raw(raw.special),
        direction: spec_from_raw(axis.x_milli as int, axis.y_milli as int, axis.angle_cd as int),
        dir_x: axis.x_milli,
        dir_y: axis.y_milli,
    }
}

/// True when `f` differs from `cur` in some action's state kind or in the
/// quantized direction — the test that decides whether `f` enters the
/// history.
pub open spec fn spec_meaningful_change(cur: InputFrame, f: InputFrame) -> bool {
    ||| !spec_same_kind(cur.jump, f.jump)
    ||| !spec_same_kind(cur.primary, f.primary)
    ||| !spec_same_kind(cur.secondary, f.secondary)
    ||| !spec_same_kind(cur.special, f.special)
    ||| cur.direction != f.direction
}

/// The history after appending `f`: the oldest frame is evicted first when
/// the history is full.
pub open spec fn spec_append(history: Seq<InputFrame>, f: InputFrame) -> Seq<InputFrame> {
    if history.len() >= BUFFER_CAPACITY {
        history.subrange(1, history.len() as int).push(f)
    } else {
        history.push(f)
    }
}

/// The bounded history of frames, the current frame, and the blocking mask.
pub struct InputBuffer {
    /// Appended frames, oldest first.
    pub buffer: Vec<InputFrame>,
    /// The freshest snapshot, refreshed every tick that has an axis.
    pub current_frame: InputFrame,
    /// The blocking mask in force.
    pub blocker: Blocker,
}

impl InputBuffer {
    /// An empty buffer: no history, a released current frame, no blocks.
    pub fn new() -> (r: InputBuffer)
        ensures
            r.buffer@ =~= Seq::<InputFrame>::empty(),
            r.current_frame == (InputFrame {
                instant: 0u64,
                jump: InputState::Released,
                primary: InputState::Released,
                secondary: InputState::Released,
                special: InputState::Released,
                direction: InputDirection::Neutral,
                dir_x: 0i64,
                dir_y: 0i64,
            }),
            r.blocker.0 == 0,
    {
        InputBuffer { buffer: Vec::new(), current_frame: InputFrame::new(), blocker: Blocker(0) }
    }

    /// Clears the stored history; the current frame and the blocks stay.
    pub fn clear(&mut self)
        ensures
            final(self).buffer@ =~= Seq::<InputFrame>::empty(),
            final(self).current_frame == old(self).current_frame,
            final(self).blocker == old(self).blocker,
    {
        self.buffer = Vec::new();
    }

    /// Appends `frame`, evicting the oldest frame when full.
    fn add(&mut self, frame: InputFrame)
        ensures
            final(self).buffer@ =~= spec_append(old(self).buffer@, frame),
            final(self).buffer@.len() <= old(self).buffer@.len() + 1,
            final(self).current_frame == old(self).current_frame,
            final(self).blocker == old(self).blocker,
    {
        if self.buffer.len() >= BUFFER_CAPACITY {
            self.buffer.remove(0);
        }
        self.buffer.push(frame);
    }

    /// Opens a query over a snapshot of the history, under the mask now in
    /// force.
    pub fn query(&self) -> (q: InputQuery)
        ensures
            q.frames@ =~= self.buffer@,
            q.all@ =~= self.buffer@,
            q.blocker == self.blocker,
    {
        InputQuery {
            frames: InputQuery::copy_frames(&self.buffer),
            all: InputQuery::copy_frames(&self.buffer),
            blocker: self.blocker,
        }
    }

    /// True when the current frame matches `input` and `input` is not
    /// blocked.
    pub fn is<T: InputLike + Blockable>(&self, input: T) -> (r: bool)
        ensures
            r == (input.spec_matches(self.current_frame) && !spec_mask_blocked(
                self.blocker,
                input.spec_blocker(),
            )),
    {
        input.matches(&self.current_frame) && !self.blocked(input)
    }

    /// True when some element of `inputs` matches the current frame and is
    /// not blocked.
    pub fn any<T: InputLike + Blockable>(&self, inputs: Vec<T>) -> (r: bool)
        ensures
            r == exists|k: int|
                0 <= k < inputs@.len() && inputs@[k].spec_matches(self.current_frame)
                    && !spec_mask_blocked(self.blocker, inputs@[k].spec_blocker()),
    {
        let mut i: usize = 0;
        while i < inputs.len()
            invariant
                i <= inputs@.len(),
                forall|k: int|
                    0 <= k < i ==> !(inputs@[k].spec_matches(self.current_frame)
                        && !spec_mask_blocked(self.blocker, inputs@[k].spec_blocker())),
            decreases inputs@.len() - i,
        {
            let candidate = &inputs[i];
            if candidate.matches(&self.current_frame) && !self.blocked_ref(candidate) {
                return true;
            }
            i = i + 1;
        }
        false
    }

    /// The current frame.
    pub fn this_frame(&self) -> (r: InputFrame)
        ensures
            r == self.current_frame,
    {
        self.current_frame
    }

    /// Merges `blocker_set` into the mask: blocking is cumulative.
    pub fn block(&mut self, blocker_set: Blocker)
        ensures
            final(self).blocker.0 == (old(self).blocker.0 | blocker_set.0),
            final(self).buffer@ =~= old(self).buffer@,
            final(self).current_frame == old(self).current_frame,
    {
        self.blocker = self.blocker | blocker_set;
    }

    /// Merges the masks of every input in `inputs`: blocking is
    /// cumulative.
    pub fn block_many(&mut self, inputs: Vec<Inputs>)
        ensures
            final(self).blocker.0 == (old(self).blocker.0 | spec_fold_blockers(inputs@)),
            final(self).buffer@ =~= old(self).buffer@,
            final(self).current_frame == old(self).current_frame,
    {
        proof {
            assert(inputs@.take(0) =~= Seq::<Inputs>::empty());
            let a = self.blocker.0;
            assert(a | 0 == a) by (bit_vector);
        }
        let mut i: usize = 0;
        while i < inputs.len()
            invariant
                i <= inputs@.len(),
                self.blocker.0 == (old(self).blocker.0 | spec_fold_blockers(inputs@.take(i as int))),
                self.buffer == old(self).buffer,
                self.current_frame == old(self).current_frame,
            decreases inputs@.len() - i,
        {
            proof {
                assert(inputs@.take(i + 1) =~= inputs@.take(i as int).push(inputs@[i as int]));
                lemma_fold_blockers_push(inputs@.take(i as int), inputs@[i as int]);
                let a = old(self).blocker.0;
                let f = spec_fold_blockers(inputs@.take(i as int));
                let g = crate::inputs::spec_input_blocker(inputs@[i as int]).0;
                assert((a | f) | g == a | (f | g)) by (bit_vector);
            }
            let b = inputs[i].to_blocker();
            self.blocker = self.blocker | b;
            i = i + 1;
        }
        proof {
            assert(inputs@.take(inputs@.len() as int) =~= inputs@);
        }
    }

    /// Blocks every input.
    pub fn block_all(&mut self)
        ensures
            final(self).blocker.0 == 0xffffu16,
            final(self).buffer@ =~= old(self).buffer@,
            final(self).current_frame == old(self).current_frame,
    {
        self.blocker = Blocker(Blocker::ALL);
    }

    /// Clears every block.
    pub fn clear_blocker(&mut self)
        ensures
            final(self).blocker.0 == 0u16,
            final(self).buffer@ =~= old(self).buffer@,
            final(self).current_frame == old(self).current_frame,
    {
        self.blocker = Blocker(Blocker::NONE);
    }

    /// True when the mask blocks any input designated by `blockable`.
    pub fn blocked<T: Blockable>(&self, blockable: T) -> (r: bool)
        ensures
            r == spec_mask_blocked(self.blocker, blockable.spec_blocker()),
    {
        self.blocker.overlaps(blockable.to_blocker())
    }

    /// `blocked`, through a reference.
    fn blocked_ref<T: Blockable>(&self, blockable: &T) -> (r: bool)
        ensures
            r == spec_mask_blocked(self.blocker, blockable.spec_blocker()),
    {
        self.blocker.overlaps(blockable.to_blocker())
    }

    /// Ingests one tick of raw input at instant `now_us`. With no axis
    /// reading the tick is skipped whole. Otherwise the current frame is
    /// refreshed, and the new frame enters the history exactly when it
    /// differs from the previous current frame in some action's state kind
    /// or in the quantized direction.
    pub fn ingest(&mut self, raw: &RawInput, now_us: u64)
        requires
            raw.axis matches Some(a) ==> -1000 <= a.x_milli <= 1000 && -1000 <= a.y_milli <= 1000
                && -18000 <= a.angle_cd <= 18000,
        ensures
            final(self).blocker == old(self).blocker,
            raw.axis is None ==> final(self).buffer@ =~= old(self).buffer@ && final(
                self).current_frame == old(self).current_frame,
            raw.axis matches Some(axis) ==> {
                let f = spec_frame_from_raw(*raw, axis, now_us);
                &&& final(self).current_frame == f
                &&& spec_meaningful_change(old(self).current_frame, f) ==> final(self).buffer@
                    =~= spec_append(old(self).buffer@, f)
                &&& !spec_meaningful_change(old(self).current_frame, f) ==> final(self).buffer@
                    =~= old(self).buffer@
            },
    {
        let axis = match raw.axis {
            Some(axis) => axis,
            None => {
                return ;
            },
        };
        let frame = InputFrame {
            instant: now_us,
            jump: Self::state_from_raw(&raw.jump),
            primary: Self::state_from_raw(&raw.primary),
            secondary: Self::state_from_raw(&raw.secondary),
            special: Self::state_from_raw(&raw.special),
            direction: InputDirection::from_raw(axis.x_milli, axis.y_milli, axis.angle_cd),
            dir_x: axis.x_milli,
            dir_y: axis.y_milli,
        };
        let changed = !self.current_frame.jump.same_kind(&frame.jump)
            || !self.current_frame.primary.same_kind(&frame.primary)
            || !self.current_frame.secondary.same_kind(&frame.secondary)
            || !self.current_frame.special.same_kind(&frame.special)
            || !self.current_frame.check_direction(frame.direction);
        self.current_frame = frame;
        if changed {
            self.add(frame);
        }
    }

    /// The input state a raw button reading denotes.
    fn state_from_raw(b: &RawButton) -> (r: InputState)
        ensures
            r == spec_state_from_raw(*b),
    {
        if b.just_pressed {
            InputState::JustPressed
        } else if b.pressed {
            InputState::Pressed { duration: b.current_duration }
        } else if b.just_released {
            InputState::JustReleased { duration: b.previous_duration }
        } else {
            InputState::Released
        }
    }
}

} // verus!
