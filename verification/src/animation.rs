//! Sprite animation stepping and selection.
//!
//! The animation interpreter is a consumer of the behavior stages: it
//! picks a frame range from the walk's stage and the grounded state, and a
//! frame timer advances the atlas index through that range, wrapping back
//! to its start.

use vstd::prelude::*;

use crate::grounded::Grounded;
use crate::timer::StageTimer;
use crate::walk::Stage;
use crate::walk::Walk;

verus! {

/// A sprite-sheet frame range and the timer that paces it.
#[derive(Clone, Copy, PartialEq, Eq, Structural, Debug)]
pub struct AnimationConfig {
    pub start_index: usize,
    pub end_index: usize,
    pub frame_timer: StageTimer,
}

/// The next atlas index: forward by one inside the range, back to the
/// start from the range's end or from outside the range.
pub open spec fn spec_next_index(config: AnimationConfig, index: int) -> int {
    if index >= config.end_index || index < config.start_index {
        config.start_index as int
    } else {
        index + 1
    }
}

impl AnimationConfig {
    /// A range from `first` to `last` paced at `fps` frames per second.
    pub fn new(first: usize, last: usize, fps: u8) -> (r: AnimationConfig)
        requires
            fps > 0,
        ensures
            r.start_index == first,
            r.end_index == last,
            r.frame_timer.duration_us == 1_000_000u64 / (fps as u64),
            r.frame_timer.elapsed_us == 0,
    {
        AnimationConfig {
            start_index: first,
            end_index: last,
            frame_timer: StageTimer::new(1_000_000 / (fps as u64)),
        }
    }

    /// A range that holds one frame.
    pub fn single_frame(index: usize) -> (r: AnimationConfig)
        ensures
            r.start_index == index,
            r.end_index == index,
            r.frame_timer.duration_us == 0,
            r.frame_timer.elapsed_us == 0,
    {
        AnimationConfig { start_index: index, end_index: index, frame_timer: StageTimer::new(0) }
    }

    /// Replaces the frame range; the timer stays.
    pub fn set_frames(&mut self, first: usize, last: usize)
        ensures
            final(self).start_index == first,
            final(self).end_index == last,
            final(self).frame_timer == old(self).frame_timer,
    {
        self.start_index = first;
        self.end_index = last;
    }

    /// Takes the frame range of `other`; the timer stays.
    pub fn set_frames_from(&mut self, other: AnimationConfig)
        ensures
            final(self).start_index == other.start_index,
            final(self).end_index == other.end_index,
            final(self).frame_timer == old(self).frame_timer,
    {
        self.start_index = other.start_index;
        self.end_index = other.end_index;
    }

    /// Re-paces the animation at `fps` frames per second.
    pub fn set_fps(&mut self, fps: u8)
        requires
            fps > 0,
        ensures
            final(self).start_index == old(self).start_index,
            final(self).end_index == old(self).end_index,
            final(self).frame_timer.duration_us == 1_000_000u64 / (fps as u64),
            final(self).frame_timer.elapsed_us == old(self).frame_timer.elapsed_us,
    {
        self.frame_timer.set_duration(1_000_000 / (fps as u64));
    }

    /// One animation tick: when the frame timer fires, steps `index`
    /// through the range — wrapping to the start — and restarts the timer.
    pub fn advance(&mut self, index: &mut usize, dt_us: u64)
        ensures
            final(self).start_index == old(self).start_index,
            final(self).end_index == old(self).end_index,
            ({
                let fired = crate::timer::spec_elapsed_after(old(self).frame_timer.elapsed_us, dt_us)
                    >= old(self).frame_timer.duration_us;
                &&& fired ==> *final(index) == spec_next_index(*old(self), *old(index) as int)
                    && final(self).frame_timer.elapsed_us == 0
                &&& !fired ==> *final(index) == *old(index) && final(self).frame_timer.elapsed_us
                    == crate::timer::spec_elapsed_after(old(self).frame_timer.elapsed_us, dt_us)
            }),
    {
        if self.frame_timer.tick(dt_us) {
            if *index >= self.end_index || *index < self.start_index {
                *index = self.start_index;
            } else {
                *index = *index + 1;
            }
            self.frame_timer.reset();
        }
    }
}

/// The animation the interpreter picks for a grounded player from the
/// walk's stage and the speed.
#[derive(Clone, Copy, PartialEq, Eq, Structural, Debug)]
pub enum AnimSelection {
    Idle,
    Walking,
    SlowingHard,
    SlowingGently,
}

/// Picks the sprite animation: walking while actively moving on the
/// ground, one of two slowdown poses by how much speed is left — hard
/// above 15 percent of the maximum — and idle anywhere else.
pub fn select_animation(walk: &Walk, grounded: &Grounded, vx: i64) -> (r: AnimSelection)
    requires
        crate::walk::spec_walk_well_formed(*walk),
        -100_000_000 <= vx <= 100_000_000,
    ensures
        ({
            if grounded.in_state && walk.stage is Active {
                r is Walking
            } else if grounded.in_state && walk.stage is Slowing {
                if crate::fixed::spec_abs(vx as int) > walk.max_speed * 15 / 100 {
                    r is SlowingHard
                } else {
                    r is SlowingGently
                }
            } else {
                r is Idle
            }
        }),
{
    if grounded.check() {
        match walk.stage() {
            Stage::Active => {
                return AnimSelection::Walking;
            },
            Stage::Slowing => {
                let threshold = walk.max_speed() * 15 / 100;
                if crate::fixed::abs64(vx) > threshold {
                    return AnimSelection::SlowingHard;
                } else {
                    return AnimSelection::SlowingGently;
                }
            },
            Stage::Dormant => {},
        }
    }
    AnimSelection::Idle
}

} // verus!
