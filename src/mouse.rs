//! The PlayStation mouse.

use crate::words::{le_word, read_u16_le};
use vstd::prelude::*;

verus! {

/// The two mouse buttons, active low.
#[derive(Clone, Copy, Debug)]
pub struct MouseButtons {
    data: u16,
}

impl View for MouseButtons {
    type V = u16;

    closed spec fn view(&self) -> u16 {
        self.data
    }
}

impl MouseButtons {
    pub const PM_L: u16 = 0x0800;
    pub const PM_R: u16 = 0x0400;

    /// The buttons whose raw bitfield is `bits`.
    pub fn from_bits(bits: u16) -> (r: Self)
        ensures
            r@ == bits,
    {
        MouseButtons { data: bits }
    }

    /// Two bitfields with the same bits are the same value.
    pub proof fn lemma_view_determines(a: Self, b: Self)
        requires
            a@ == b@,
        ensures
            a == b,
    {
    }

    /// Whether the button is pressed.
    pub fn left(&self) -> (r: bool)
        ensures
            r == (self@ & Self::PM_L == 0),
    {
        self.data & Self::PM_L == 0
    }

    /// Whether the button is pressed.
    pub fn right(&self) -> (r: bool)
        ensures
            r == (self@ & Self::PM_R == 0),
    {
        self.data & Self::PM_R == 0
    }
}

/// The two's-complement reading of a byte.
pub open spec fn signed_byte(b: u8) -> int {
    if b < 128 {
        b as int
    } else {
        b - 256
    }
}

/// A movement byte read as a signed count.
fn movement(b: u8) -> (r: i8)
    ensures
        r as int == signed_byte(b),
{
    if b < 128 {
        b as i8
    } else {
        (b as i16 - 256) as i8
    }
}

/// The mouse: its buttons and its movement since the last poll.
#[derive(Clone, Copy, Debug)]
pub struct Mouse {
    /// The buttons
    pub buttons: MouseButtons,
    /// Movement along the Y axis since the last poll
    pub y: i8,
    /// Movement along the X axis since the last poll
    pub x: i8,
}

impl Mouse {
    /// Payload bytes that the record reads.
    pub const SIZE: usize = 4;

    /// Whether this record is the reading of payload `p`: the button word,
    /// then the signed Y and X movements.
    pub open spec fn decoded_from(&self, p: Seq<u8>) -> bool {
        &&& self.buttons@ == le_word(p[0], p[1])
        &&& self.y as int == signed_byte(p[2])
        &&& self.x as int == signed_byte(p[3])
    }

    /// Reads the record from the payload `p` of a poll response.
    pub fn decode(p: &[u8]) -> (r: Self)
        requires
            p@.len() >= Self::SIZE,
        ensures
            r.decoded_from(p@),
    {
        Mouse {
            buttons: MouseButtons::from_bits(read_u16_le(p)),
            y: movement(p[2]),
            x: movement(p[3]),
        }
    }

    /// One payload has one reading.
    pub proof fn lemma_decoded_unique(a: Self, b: Self, p: Seq<u8>)
        requires
            a.decoded_from(p),
            b.decoded_from(p),
        ensures
            a == b,
    {
        MouseButtons::lemma_view_determines(a.buttons, b.buttons);
    }
}

} // verus!
