//! The conductor's baton of G.A.E.'s GEA001, made for Mad Maestro. It
//! carries accelerometers.

use crate::words::{le_word, read_u16_le};
use vstd::prelude::*;

verus! {

/// The baton's two buttons, active low.
#[derive(Clone, Copy, Debug)]
pub struct BatonButtons {
    data: u16,
}

impl View for BatonButtons {
    type V = u16;

    closed spec fn view(&self) -> u16 {
        self.data
    }
}

impl BatonButtons {
    pub const B_A: u16 = 0x0008;
    pub const B_B: u16 = 0x2000;

    /// The buttons whose raw bitfield is `bits`.
    pub fn from_bits(bits: u16) -> (r: Self)
        ensures
            r@ == bits,
    {
        BatonButtons { data: bits }
    }


    /// Whether the button is pressed.
    pub fn a(&self) -> (r: bool)
        ensures
            r == (self@ & Self::B_A == 0),
    {
        self.data & Self::B_A == 0
    }

    /// Whether the button is pressed.
    pub fn b(&self) -> (r: bool)
        ensures
            r == (self@ & Self::B_B == 0),
    {
        self.data & Self::B_B == 0
    }
}

/// The baton: its buttons and four acceleration readings.
#[derive(Clone, Copy, Debug)]
pub struct Baton {
    /// The buttons
    pub buttons: BatonButtons,
    /// Acceleration towards or away from the body
    pub z: u8,
    /// Presumably acceleration on another axis
    pub x: u8,
    /// Presumably acceleration on another axis
    pub y: u8,
    /// Presumably acceleration on another axis
    pub a: u8,
}

impl Baton {
    /// Payload bytes that the record reads.
    pub const SIZE: usize = 6;

    /// Whether this record is the reading of payload `p`: the button word,
    /// then z, x, y and a, one byte each.
    pub open spec fn decoded_from(&self, p: Seq<u8>) -> bool {
        &&& self.buttons@ == le_word(p[0], p[1])
        &&& self.z == p[2]
        &&& self.x == p[3]
        &&& self.y == p[4]
        &&& self.a == p[5]
    }

    /// Reads the record from the payload `p` of a poll response.
    pub fn decode(p: &[u8]) -> (r: Self)
        requires
            p@.len() >= Self::SIZE,
        ensures
            r.decoded_from(p@),
    {
        Baton {
            buttons: BatonButtons::from_bits(read_u16_le(p)),
            z: p[2],
            x: p[3],
            y: p[4],
            a: p[5],
        }
    }
}

} // verus!
