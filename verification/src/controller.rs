//! A snapshot of the seven buttons for one tick, with its 1-byte wire form.
//!
//! The packed layout is fixed for replay-file compatibility: bit 0 is unused
//! and bits 1 through 7 carry left, right, rotate_left, rotate_right, hold,
//! soft_drop and hard_drop, in that order.

use vstd::prelude::*;

verus! {

#[derive(Copy, Clone, Debug, Hash, PartialEq, Eq, Structural)]
pub struct Controller {
    pub left: bool,
    pub right: bool,
    pub rotate_right: bool,
    pub rotate_left: bool,
    pub soft_drop: bool,
    pub hard_drop: bool,
    pub hold: bool,
}

impl Default for Controller {
    /// The all-released snapshot.
    fn default() -> (c: Controller)
        ensures
            c == Controller::released(),
    {
        Controller {
            left: false,
            right: false,
            rotate_right: false,
            rotate_left: false,
            soft_drop: false,
            hard_drop: false,
            hold: false,
        }
    }
}

/// The packed byte of a snapshot: one weight per held button.
pub open spec fn packed(c: Controller) -> u8 {
    (if c.left { 2u8 } else { 0u8 })
        | (if c.right { 4u8 } else { 0u8 })
        | (if c.rotate_left { 8u8 } else { 0u8 })
        | (if c.rotate_right { 16u8 } else { 0u8 })
        | (if c.hold { 32u8 } else { 0u8 })
        | (if c.soft_drop { 64u8 } else { 0u8 })
        | (if c.hard_drop { 128u8 } else { 0u8 })
}

/// The snapshot read back from a byte; bit 0 is ignored.
pub open spec fn unpacked(b: u8) -> Controller {
    Controller {
        left: b & 2 != 0,
        right: b & 4 != 0,
        rotate_left: b & 8 != 0,
        rotate_right: b & 16 != 0,
        hold: b & 32 != 0,
        soft_drop: b & 64 != 0,
        hard_drop: b & 128 != 0,
    }
}

impl Controller {
    /// The all-released snapshot.
    pub open spec fn released() -> Controller {
        Controller {
            left: false,
            right: false,
            rotate_right: false,
            rotate_left: false,
            soft_drop: false,
            hard_drop: false,
            hold: false,
        }
    }

    /// Pack the snapshot into its wire byte.
    pub fn serialize(&self) -> (b: u8)
        ensures
            b == packed(*self),
    {
        (if self.left { 2u8 } else { 0u8 })
            | (if self.right { 4u8 } else { 0u8 })
            | (if self.rotate_left { 8u8 } else { 0u8 })
            | (if self.rotate_right { 16u8 } else { 0u8 })
            | (if self.hold { 32u8 } else { 0u8 })
            | (if self.soft_drop { 64u8 } else { 0u8 })
            | (if self.hard_drop { 128u8 } else { 0u8 })
    }

    /// Read a snapshot back from its wire byte.
    pub fn deserialize(b: u8) -> (c: Controller)
        ensures
            c == unpacked(b),
    {
        Controller {
            left: b & 2 != 0,
            right: b & 4 != 0,
            rotate_left: b & 8 != 0,
            rotate_right: b & 16 != 0,
            hold: b & 32 != 0,
            soft_drop: b & 64 != 0,
            hard_drop: b & 128 != 0,
        }
    }
}

/// Round trip: packing any snapshot and reading the byte back yields the
/// original snapshot, for every one of the 128 button combinations.
pub proof fn lemma_controller_round_trip(c: Controller)
    ensures
        unpacked(packed(c)) == c,
{
    let l: u8 = if c.left { 2u8 } else { 0u8 };
    let r: u8 = if c.right { 4u8 } else { 0u8 };
    let rl: u8 = if c.rotate_left { 8u8 } else { 0u8 };
    let rr: u8 = if c.rotate_right { 16u8 } else { 0u8 };
    let h: u8 = if c.hold { 32u8 } else { 0u8 };
    let s: u8 = if c.soft_drop { 64u8 } else { 0u8 };
    let hd: u8 = if c.hard_drop { 128u8 } else { 0u8 };
    let b: u8 = l | r | rl | rr | h | s | hd;
    assert((b & 2 != 0) == (l != 0) && (b & 4 != 0) == (r != 0) && (b & 8 != 0) == (rl != 0)
        && (b & 16 != 0) == (rr != 0) && (b & 32 != 0) == (h != 0) && (b & 64 != 0) == (s != 0)
        && (b & 128 != 0) == (hd != 0)) by (bit_vector)
        requires
            l == 0 || l == 2,
            r == 0 || r == 4,
            rl == 0 || rl == 8,
            rr == 0 || rr == 16,
            h == 0 || h == 32,
            s == 0 || s == 64,
            hd == 0 || hd == 128,
            b == (l | r | rl | rr | h | s | hd),
    ;
    assert(packed(c) == b);
}

} // verus!
