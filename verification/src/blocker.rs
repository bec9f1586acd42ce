//! Input blocking mask.
//!
//! A `Blocker` is a bitset over the symbolic action space: the four buttons
//! (jump, primary, secondary, special) and the eight quantized directions.
//! A behavior that enters an exclusive stage raises blocks so that the
//! blocked inputs cannot trigger other behaviors, and clears them when it
//! returns to its dormant stage.

use vstd::prelude::*;

verus! {

/// A set of input blocking flags, one bit per blockable input.
#[derive(Clone, Copy, PartialEq, Eq, Structural, Debug)]
pub struct Blocker(pub u16);

impl Blocker {
    /// Bit masks, one per blockable input. A `Blocker` is built from them
    /// with the tuple constructor, `Blocker(Blocker::JUMP)`.
    pub const NONE: u16 = 0;
    pub const ALL: u16 = 0xffff;

    pub const JUMP: u16 = 1;
    pub const PRIMARY: u16 = 2;
    pub const SECONDARY: u16 = 4;
    pub const SPECIAL: u16 = 8;
    pub const UP: u16 = 16;
    pub const UP_RIGHT: u16 = 32;
    pub const RIGHT: u16 = 64;
    pub const DOWN_RIGHT: u16 = 128;
    pub const DOWN: u16 = 256;
    pub const DOWN_LEFT: u16 = 512;
    pub const LEFT: u16 = 1024;
    pub const UP_LEFT: u16 = 2048;

    /// The raw bits of the mask.
    pub fn get(&self) -> (r: u16)
        ensures
            r == self.0,
    {
        self.0
    }

    /// The mask with every directional flag set and nothing else.
    pub fn directions() -> (r: Blocker)
        ensures
            r.0 == 0x0ff0u16,
    {
        Blocker(0x0ff0)
    }

    /// The mask with every non-directional (button) flag set and nothing else.
    pub fn non_directional() -> (r: Blocker)
        ensures
            r.0 == 0x000fu16,
    {
        Blocker(0x000f)
    }

    /// True when this mask and `other` share at least one set bit.
    pub fn overlaps(&self, other: Blocker) -> (r: bool)
        ensures
            r == ((self.0 & other.0) != 0),
    {
        (self.0 & other.0) != 0
    }
}

/// A value that designates a set of blockable inputs.
pub trait Blockable {
    /// The mask this value stands for.
    spec fn spec_blocker(&self) -> Blocker;

    /// Converts the value to its mask.
    fn to_blocker(&self) -> (r: Blocker)
        ensures
            r == self.spec_blocker(),
    ;
}

impl Blockable for Blocker {
    open spec fn spec_blocker(&self) -> Blocker {
        *self
    }

    fn to_blocker(&self) -> (r: Blocker) {
        *self
    }
}

impl core::ops::BitOr for Blocker {
    type Output = Blocker;

    /// Union of two masks.
    fn bitor(self, rhs: Blocker) -> (r: Blocker)
        ensures
            r.0 == (self.0 | rhs.0),
    {
        Blocker(self.0 | rhs.0)
    }
}

impl vstd::std_specs::ops::BitOrSpecImpl for Blocker {
    open spec fn obeys_bitor_spec() -> bool {
        true
    }

    open spec fn bitor_req(self, rhs: Blocker) -> bool {
        true
    }

    open spec fn bitor_spec(self, rhs: Blocker) -> Blocker {
        Blocker(self.0 | rhs.0)
    }
}

impl core::ops::BitAnd for Blocker {
    type Output = Blocker;

    /// Intersection of two masks.
    fn bitand(self, rhs: Blocker) -> (r: Blocker)
        ensures
            r.0 == (self.0 & rhs.0),
    {
        Blocker(self.0 & rhs.0)
    }
}

impl vstd::std_specs::ops::BitAndSpecImpl for Blocker {
    open spec fn obeys_bitand_spec() -> bool {
        true
    }

    open spec fn bitand_req(self, rhs: Blocker) -> bool {
        true
    }

    open spec fn bitand_spec(self, rhs: Blocker) -> Blocker {
        Blocker(self.0 & rhs.0)
    }
}

impl core::ops::Not for Blocker {
    type Output = Blocker;

    /// Complement of a mask.
    fn not(self) -> (r: Blocker)
        ensures
            r.0 == !self.0,
    {
        Blocker(!self.0)
    }
}

impl vstd::std_specs::ops::NotSpecImpl for Blocker {
    open spec fn obeys_not_spec() -> bool {
        true
    }

    open spec fn not_req(self) -> bool {
        true
    }

    open spec fn not_spec(self) -> Blocker {
        Blocker(!self.0)
    }
}

} // verus!
