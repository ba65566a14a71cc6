//! Namco's GunCon light gun.

use crate::words::{le_word, read_u16_le};
use vstd::prelude::*;

verus! {

/// The GunCon's buttons, active low.
#[derive(Clone, Copy, Debug)]
pub struct GunconButtons {
    data: u16,
}

impl View for GunconButtons {
    type V = u16;

    closed spec fn view(&self) -> u16 {
        self.data
    }
}

impl GunconButtons {
    pub const GC_A: u16 = 0x0008;
    pub const GC_B: u16 = 0x4000;
    pub const GC_TRIGGER: u16 = 0x2000;

    /// The buttons whose raw bitfield is `bits`.
    pub fn from_bits(bits: u16) -> (r: Self)
        ensures
            r@ == bits,
    {
        GunconButtons { data: bits }
    }

    /// Two bitfields with the same bits are the same value.
    pub proof fn lemma_view_determines(a: Self, b: Self)
        requires
            a@ == b@,
        ensures
            a == b,
    {
    }

    /// Whether the button is pressed.
    pub fn a(&self) -> (r: bool)
        ensures
            r == (self@ & Self::GC_A == 0),
    {
        self.data & Self::GC_A == 0
    }

    /// Whether the button is pressed.
    pub fn b(&self) -> (r: bool)
        ensures
            r == (self@ & Self::GC_B == 0),
    {
        self.data & Self::GC_B == 0
    }

    /// Whether the trigger is pulled.
    pub fn trigger(&self) -> (r: bool)
        ensures
            r == (self@ & Self::GC_TRIGGER == 0),
    {
        self.data & Self::GC_TRIGGER == 0
    }
}

/// The GunCon: its buttons and where on the screen it points, each
/// coordinate kept as its two wire bytes.
#[derive(Clone, Copy, Debug)]
pub struct GunCon {
    /// The buttons
    pub buttons: GunconButtons,
    /// Position on the screen, left to right, least significant byte first
    pub x: [u8; 2],
    /// Position on the screen, top to bottom, least significant byte first
    pub y: [u8; 2],
}

impl GunCon {
    /// Payload bytes that the record reads.
    pub const SIZE: usize = 6;

    /// Whether this record is the reading of payload `p`: the button word,
    /// then the X and Y coordinates as little-endian words.
    pub open spec fn decoded_from(&self, p: Seq<u8>) -> bool {
        &&& self.buttons@ == le_word(p[0], p[1])
        &&& self.x@ == p.subrange(2, 4)
        &&& self.y@ == p.subrange(4, 6)
    }

    /// Reads the record from the payload `p` of a poll response.
    pub fn decode(p: &[u8]) -> (r: Self)
        requires
            p@.len() >= Self::SIZE,
        ensures
            r.decoded_from(p@),
    {
        let r = GunCon {
            buttons: GunconButtons::from_bits(read_u16_le(p)),
            x: [p[2], p[3]],
            y: [p[4], p[5]],
        };
        assert(r.x@ =~= p@.subrange(2, 4));
        assert(r.y@ =~= p@.subrange(4, 6));
        r
    }

    /// One payload has one reading.
    pub proof fn lemma_decoded_unique(a: Self, b: Self, p: Seq<u8>)
        requires
            a.decoded_from(p),
            b.decoded_from(p),
        ensures
            a == b,
    {
        GunconButtons::lemma_view_determines(a.buttons, b.buttons);
        assert(a.x =~= b.x);
        assert(a.y =~= b.y);
    }

    /// The horizontal position of the GunCon's aim on the screen.
    pub fn x(&self) -> (r: u16)
        ensures
            r == le_word(self.x[0], self.x[1]),
    {
        read_u16_le(self.x.as_slice())
    }

    /// The vertical position of the GunCon's aim on the screen.
    pub fn y(&self) -> (r: u16)
        ensures
            r == le_word(self.y[0], self.y[1]),
    {
        read_u16_le(self.y.as_slice())
    }
}

} // verus!
