//! Quantized directional input.
//!
//! Raw 2D axis input is quantized to one of eight 45-degree sectors, or to
//! `Neutral` when its magnitude lies inside the deadzone. Sector boundaries
//! lie on odd multiples of 22.5 degrees and are half-open: the lower bound
//! belongs to the sector, the upper bound to the next. Angles are measured
//! in hundredths of a degree, counter-clockwise from the positive x axis,
//! in the half-open range `(-18000, 18000]` with both ends tolerated.

use vstd::prelude::*;

use crate::blocker::Blockable;
use crate::blocker::Blocker;
use crate::input_frame::InputFrame;
use crate::input_query::InputLike;

verus! {

/// One of the eight quantized input directions, or `Neutral` inside the
/// deadzone.
#[derive(Clone, Copy, PartialEq, Eq, Structural, Debug)]
pub enum InputDirection {
    Up,
    UpRight,
    Right,
    DownRight,
    Down,
    DownLeft,
    Left,
    UpLeft,
    Neutral,
}

/// Squared deadzone radius: axis vectors shorter than 0.2 units (200 milli)
/// quantize to `Neutral`.
pub const DEADZONE_SQ_MILLI: i64 = 40_000;

/// The sector that contains the angle `d`, in hundredths of a degree.
pub open spec fn spec_from_angle(d: int) -> InputDirection {
    if 6750 <= d < 11250 {
        InputDirection::Up
    } else if 2250 <= d < 6750 {
        InputDirection::UpRight
    } else if -2250 <= d < 2250 {
        InputDirection::Right
    } else if -6750 <= d < -2250 {
        InputDirection::DownRight
    } else if -11250 <= d < -6750 {
        InputDirection::Down
    } else if -15750 <= d < -11250 {
        InputDirection::DownLeft
    } else if 11250 <= d < 15750 {
        InputDirection::UpLeft
    } else {
        InputDirection::Left
    }
}

/// Quantization of a raw axis vector `(x, y)` in milli-units whose polar
/// angle is `angle_cd`.
pub open spec fn spec_from_raw(x: int, y: int, angle_cd: int) -> InputDirection {
    if x * x + y * y < DEADZONE_SQ_MILLI {
        InputDirection::Neutral
    } else {
        spec_from_angle(angle_cd)
    }
}

/// The direction at clockwise index `num % 8`, starting from `Up`.
pub open spec fn spec_from_index(num: int) -> InputDirection {
    let i = num % 8;
    if i == 0 {
        InputDirection::Up
    } else if i == 1 {
        InputDirection::UpRight
    } else if i == 2 {
        InputDirection::Right
    } else if i == 3 {
        InputDirection::DownRight
    } else if i == 4 {
        InputDirection::Down
    } else if i == 5 {
        InputDirection::DownLeft
    } else if i == 6 {
        InputDirection::Left
    } else {
        InputDirection::UpLeft
    }
}

/// Clockwise index of a direction; `Neutral` shares index 8 with no sector.
pub open spec fn spec_index_of(d: InputDirection) -> int {
    match d {
        InputDirection::Up => 0,
        InputDirection::UpRight => 1,
        InputDirection::Right => 2,
        InputDirection::DownRight => 3,
        InputDirection::Down => 4,
        InputDirection::DownLeft => 5,
        InputDirection::Left => 6,
        InputDirection::UpLeft => 7,
        InputDirection::Neutral => 8,
    }
}

impl InputDirection {
    fn from_u32(num: u32) -> (r: InputDirection)
        ensures
            r == spec_from_index(num as int),
    {
        match num % 8 {
            0 => InputDirection::Up,
            1 => InputDirection::UpRight,
            2 => InputDirection::Right,
            3 => InputDirection::DownRight,
            4 => InputDirection::Down,
            5 => InputDirection::DownLeft,
            6 => InputDirection::Left,
            _ => InputDirection::UpLeft,
        }
    }

    fn index(&self) -> (r: u32)
        ensures
            r == spec_index_of(*self) % 8,
    {
        match self {
            InputDirection::Up => 0,
            InputDirection::UpRight => 1,
            InputDirection::Right => 2,
            InputDirection::DownRight => 3,
            InputDirection::Down => 4,
            InputDirection::DownLeft => 5,
            InputDirection::Left => 6,
            InputDirection::UpLeft => 7,
            InputDirection::Neutral => 0,
        }
    }

    /// The three directions with a downward component.
    pub fn any_down() -> (r: [InputDirection; 3])
        ensures
            r@ =~= seq![InputDirection::Down, InputDirection::DownRight, InputDirection::DownLeft],
    {
        [InputDirection::Down, InputDirection::DownRight, InputDirection::DownLeft]
    }

    /// The three directions with an upward component.
    pub fn any_up() -> (r: [InputDirection; 3])
        ensures
            r@ =~= seq![InputDirection::Up, InputDirection::UpRight, InputDirection::UpLeft],
    {
        [InputDirection::Up, InputDirection::UpRight, InputDirection::UpLeft]
    }

    /// The three directions with a rightward component.
    pub fn any_right() -> (r: [InputDirection; 3])
        ensures
            r@ =~= seq![InputDirection::Right, InputDirection::UpRight, InputDirection::DownRight],
    {
        [InputDirection::Right, InputDirection::UpRight, InputDirection::DownRight]
    }

    /// The three directions with a leftward component.
    pub fn any_left() -> (r: [InputDirection; 3])
        ensures
            r@ =~= seq![InputDirection::Left, InputDirection::UpLeft, InputDirection::DownLeft],
    {
        [InputDirection::Left, InputDirection::UpLeft, InputDirection::DownLeft]
    }

    /// The sequence of sectors met when rolling clockwise from `self` to
    /// `to`, both ends included; all nine when the two coincide.
    pub fn roll_clockwise(&self, to: InputDirection) -> (r: Vec<InputDirection>)
        ensures
            ({
                let start = spec_index_of(*self) % 8;
                let end = spec_index_of(to) % 8;
                let size = if start == end {
                    9int
                } else if start < end {
                    end - start + 1
                } else {
                    8 - start + end + 1
                };
                &&& r@.len() == size
                &&& forall|i: int| 0 <= i < size ==> r@[i] == spec_from_index(start + i)
            }),
    {
        let end: u32 = to.index();
        let start: u32 = self.index();
        let size: u32 = if start == end {
            9
        } else if start < end {
            end - start + 1
        } else {
            8 - start + end + 1
        };

        let mut result: Vec<InputDirection> = Vec::new();
        let mut i: u32 = 0;
        while i < size
            invariant
                i <= size,
                size <= 9,
                start < 8,
                result@.len() == i,
                forall|j: int| 0 <= j < i ==> result@[j] == spec_from_index(start + j),
            decreases size - i,
        {
            result.push(InputDirection::from_u32(start + i));
            i = i + 1;
        }
        result
    }

    /// The sequence of sectors met when rolling counter-clockwise from
    /// `self` to `to`, both ends included; all nine when the two coincide.
    pub fn roll_counter_clockwise(&self, to: InputDirection) -> (r: Vec<InputDirection>)
        ensures
            ({
                let start = spec_index_of(*self) % 8;
                let end = spec_index_of(to) % 8;
                let size = if start == end {
                    9int
                } else if start > end {
                    start - end + 1
                } else {
                    8 + start - end + 1
                };
                &&& r@.len() == size
                &&& forall|i: int| 0 <= i < size ==> r@[i] == spec_from_index(8 + start - i)
            }),
    {
        let end: u32 = to.index();
        let start: u32 = self.index();
        let size: u32 = if start == end {
            9
        } else if start > end {
            start - end + 1
        } else {
            8 + start - end + 1
        };

        let mut result: Vec<InputDirection> = Vec::new();
        let mut i: u32 = 0;
        while i < size
            invariant
                i <= size,
                size <= 9,
                start < 8,
                result@.len() == i,
                forall|j: int| 0 <= j < i ==> result@[j] == spec_from_index(8 + start - j),
            decreases size - i,
        {
            result.push(InputDirection::from_u32(8 + start - i));
            i = i + 1;
        }
        result
    }

    /// Quantizes the raw axis vector `(x_milli, y_milli)`, whose polar angle
    /// the caller measured as `angle_cd` hundredths of a degree: `Neutral`
    /// inside the deadzone, otherwise the 45-degree sector of the angle.
    pub fn from_raw(x_milli: i64, y_milli: i64, angle_cd: i64) -> (r: InputDirection)
        requires
            -2000 <= x_milli <= 2000,
            -2000 <= y_milli <= 2000,
            -18000 <= angle_cd <= 18000,
        ensures
            r == spec_from_raw(x_milli as int, y_milli as int, angle_cd as int),
    {
        proof {
            assert(0 <= (x_milli as int) * (x_milli as int) <= 4_000_000 && 0 <= (y_milli as int)
                * (y_milli as int) <= 4_000_000) by (nonlinear_arith)
                requires
                    -2000 <= x_milli as int <= 2000,
                    -2000 <= y_milli as int <= 2000,
            ;
        }
        if x_milli * x_milli + y_milli * y_milli < DEADZONE_SQ_MILLI {
            return InputDirection::Neutral;
        }
        InputDirection::from_angle(angle_cd)
    }

    /// The 45-degree sector that contains the angle `angle_cd`, in
    /// hundredths of a degree; each sector includes its lower boundary and
    /// excludes its upper one.
    pub fn from_angle(angle_cd: i64) -> (r: InputDirection)
        requires
            -18000 <= angle_cd <= 18000,
        ensures
            r == spec_from_angle(angle_cd as int),
    {
        let d = angle_cd;
        if 6750 <= d && d < 11250 {
            InputDirection::Up
        } else if 2250 <= d && d < 6750 {
            InputDirection::UpRight
        } else if -2250 <= d && d < 2250 {
            InputDirection::Right
        } else if -6750 <= d && d < -2250 {
            InputDirection::DownRight
        } else if -11250 <= d && d < -6750 {
            InputDirection::Down
        } else if -15750 <= d && d < -11250 {
            InputDirection::DownLeft
        } else if 11250 <= d && d < 15750 {
            InputDirection::UpLeft
        } else {
            InputDirection::Left
        }
    }
}

impl InputLike for InputDirection {
    open spec fn spec_matches(&self, frame: InputFrame) -> bool {
        frame.direction == *self
    }

    fn matches(&self, frame: &InputFrame) -> (r: bool) {
        frame.direction == *self
    }
}

impl Blockable for InputDirection {
    open spec fn spec_blocker(&self) -> Blocker {
        match self {
            InputDirection::Up => Blocker(Blocker::UP),
            InputDirection::UpRight => Blocker(Blocker::UP_RIGHT),
            InputDirection::Right => Blocker(Blocker::RIGHT),
            InputDirection::DownRight => Blocker(Blocker::DOWN_RIGHT),
            InputDirection::Down => Blocker(Blocker::DOWN),
            InputDirection::DownLeft => Blocker(Blocker::DOWN_LEFT),
            InputDirection::Left => Blocker(Blocker::LEFT),
            InputDirection::UpLeft => Blocker(Blocker::UP_LEFT),
            InputDirection::Neutral => Blocker(Blocker::NONE),
        }
    }

    fn to_blocker(&self) -> (r: Blocker) {
        match self {
            InputDirection::Up => Blocker(Blocker::UP),
            InputDirection::UpRight => Blocker(Blocker::UP_RIGHT),
            InputDirection::Right => Blocker(Blocker::RIGHT),
            InputDirection::DownRight => Blocker(Blocker::DOWN_RIGHT),
            InputDirection::Down => Blocker(Blocker::DOWN),
            InputDirection::DownLeft => Blocker(Blocker::DOWN_LEFT),
            InputDirection::Left => Blocker(Blocker::LEFT),
            InputDirection::UpLeft => Blocker(Blocker::UP_LEFT),
            InputDirection::Neutral => Blocker(Blocker::NONE),
        }
    }
}

} // verus!
