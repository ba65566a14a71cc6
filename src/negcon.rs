//! Namco's NeGcon, a controller that twists in the middle. It has its own
//! set of buttons and several analog inputs.

use crate::words::{le_word, read_u16_le};
use vstd::prelude::*;

verus! {

/// The NeGcon's digital buttons, active low.
#[derive(Clone, Copy, Debug)]
pub struct NegconButtons {
    data: u16,
}

impl View for NegconButtons {
    type V = u16;

    closed spec fn view(&self) -> u16 {
        self.data
    }
}

impl NegconButtons {
    pub const NC_SELECT: u16 = 0x0001;
    pub const NC_START: u16 = 0x0008;
    pub const NC_UP: u16 = 0x0010;
    pub const NC_RIGHT: u16 = 0x0020;
    pub const NC_DOWN: u16 = 0x0040;
    pub const NC_LEFT: u16 = 0x0080;
    pub const NC_R: u16 = 0x0800;
    pub const NC_B: u16 = 0x1000;
    pub const NC_A: u16 = 0x2000;

    /// The buttons whose raw bitfield is `bits`.
    pub fn from_bits(bits: u16) -> (r: Self)
        ensures
            r@ == bits,
    {
        NegconButtons { data: bits }
    }

    /// Two bitfields with the same bits are the same value.
    pub proof fn lemma_view_determines(a: Self, b: Self)
        requires
            a@ == b@,
        ensures
            a == b,
    {
    }

    /// Whether the button is pressed.
    pub fn select(&self) -> (r: bool)
        ensures
            r == (self@ & Self::NC_SELECT == 0),
    {
        self.data & Self::NC_SELECT == 0
    }

    /// Whether the button is pressed.
    pub fn start(&self) -> (r: bool)
        ensures
            r == (self@ & Self::NC_START == 0),
    {
        self.data & Self::NC_START == 0
    }

    /// Whether the button is pressed.
    pub fn up(&self) -> (r: bool)
        ensures
            r == (self@ & Self::NC_UP == 0),
    {
        self.data & Self::NC_UP == 0
    }

    /// Whether the button is pressed.
    pub fn right(&self) -> (r: bool)
        ensures
            r == (self@ & Self::NC_RIGHT == 0),
    {
        self.data & Self::NC_RIGHT == 0
    }

    /// Whether the button is pressed.
    pub fn down(&self) -> (r: bool)
        ensures
            r == (self@ & Self::NC_DOWN == 0),
    {
        self.data & Self::NC_DOWN == 0
    }

    /// Whether the button is pressed.
    pub fn left(&self) -> (r: bool)
        ensures
            r == (self@ & Self::NC_LEFT == 0),
    {
        self.data & Self::NC_LEFT == 0
    }

    /// Whether the button is pressed.
    pub fn r(&self) -> (r: bool)
        ensures
            r == (self@ & Self::NC_R == 0),
    {
        self.data & Self::NC_R == 0
    }

    /// Whether the button is pressed.
    pub fn b(&self) -> (r: bool)
        ensures
            r == (self@ & Self::NC_B == 0),
    {
        self.data & Self::NC_B == 0
    }

    /// Whether the button is pressed.
    pub fn a(&self) -> (r: bool)
        ensures
            r == (self@ & Self::NC_A == 0),
    {
        self.data & Self::NC_A == 0
    }

    /// The raw bitfield, for aggregate tests over several buttons.
    pub fn bits(&self) -> (r: u16)
        ensures
            r == self@,
    {
        self.data
    }
}

/// The NeGcon: its buttons, the twist and the three analog switches.
#[derive(Clone, Copy, Debug)]
pub struct NegCon {
    /// The NeGcon's buttons (A, B, R, ...)
    pub buttons: NegconButtons,
    /// Position of the twist; the centre is 0x80
    pub twist: u8,
    /// Position of switch I
    pub switchi: u8,
    /// Position of switch II
    pub switchii: u8,
    /// Position of switch L
    pub switchl: u8,
}

impl NegCon {
    /// Payload bytes that the record reads.
    pub const SIZE: usize = 6;

    /// Whether this record is the reading of payload `p`: the button word,
    /// then the twist and the switches I, II and L, one byte each.
    pub open spec fn decoded_from(&self, p: Seq<u8>) -> bool {
        &&& self.buttons@ == le_word(p[0], p[1])
        &&& self.twist == p[2]
        &&& self.switchi == p[3]
        &&& self.switchii == p[4]
        &&& self.switchl == p[5]
    }

    /// Reads the record from the payload `p` of a poll response.
    pub fn decode(p: &[u8]) -> (r: Self)
        requires
            p@.len() >= Self::SIZE,
        ensures
            r.decoded_from(p@),
    {
        NegCon {
            buttons: NegconButtons::from_bits(read_u16_le(p)),
            twist: p[2],
            switchi: p[3],
            switchii: p[4],
            switchl: p[5],
        }
    }

    /// One payload has one reading.
    pub proof fn lemma_decoded_unique(a: Self, b: Self, p: Seq<u8>)
        requires
            a.decoded_from(p),
            b.decoded_from(p),
        ensures
            a == b,
    {
        NegconButtons::lemma_view_determines(a.buttons, b.buttons);
    }
}

} // verus!
