//! Facing direction.
//!
//! A signed unit scalar driving sprite flip and attack directionality.
//! Directional input updates it only while directional input is not
//! blocked.

use vstd::prelude::*;

verus! {

/// The side the player faces: `1` for right, `-1` for left.
#[derive(Clone, Copy, PartialEq, Eq, Structural, Debug)]
pub struct FacingDirection {
    pub dir: i64,
}

/// A facing direction is one of the two unit signs.
pub open spec fn spec_facing_well_formed(f: FacingDirection) -> bool {
    f.dir == 1 || f.dir == -1
}

/// The sign a raw value sets: nonnegative input faces right.
pub open spec fn spec_facing_sign(v: int) -> int {
    if v >= 0 {
        1
    } else {
        -1
    }
}

impl FacingDirection {
    /// Facing right.
    pub fn new() -> (r: FacingDirection)
        ensures
            r.dir == 1,
            spec_facing_well_formed(r),
    {
        FacingDirection { dir: 1 }
    }

    /// Sets the facing to the sign of `dir`.
    pub fn set(&mut self, dir: i64)
        ensures
            final(self).dir == spec_facing_sign(dir as int),
            spec_facing_well_formed(*final(self)),
    {
        self.dir = if dir >= 0 {
            1
        } else {
            -1
        };
    }

    /// The facing as a signed unit scalar.
    pub fn get(&self) -> (r: i64)
        requires
            spec_facing_well_formed(*self),
        ensures
            r == self.dir,
    {
        self.dir
    }

    /// Whether the player faces right.
    pub fn right(&self) -> (r: bool)
        ensures
            r == (self.dir >= 0),
    {
        self.dir >= 0
    }

    /// Whether the player faces left.
    pub fn left(&self) -> (r: bool)
        ensures
            r == (self.dir < 0),
    {
        self.dir < 0
    }

    /// The per-tick update: horizontal input beyond the turn threshold of
    /// 0.1 units turns the player, unless directional input is blocked.
    pub fn update(&mut self, x_input_milli: i64, directional_blocked: bool)
        requires
            x_input_milli != i64::MIN,
        ensures
            ({
                let turns = crate::fixed::spec_abs(x_input_milli as int) > 100
                    && !directional_blocked;
                &&& turns ==> final(self).dir == spec_facing_sign(x_input_milli as int)
                &&& !turns ==> final(self).dir == old(self).dir
            }),
    {
        if crate::fixed::abs64(x_input_milli) > 100 && !directional_blocked {
            self.set(x_input_milli);
        }
    }
}

} // verus!
