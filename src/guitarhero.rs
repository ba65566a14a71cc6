//! RedOctane's Guitar Hero guitar. To the bus it looks exactly like a
//! DualShock, so a poll cannot tell it apart; read it from a raw poll.

use crate::words::{le_word, read_u16_le};
use vstd::prelude::*;

verus! {

/// The guitar's buttons, active low.
#[derive(Clone, Copy, Debug)]
pub struct GuitarButtons {
    data: u16,
}

impl View for GuitarButtons {
    type V = u16;

    closed spec fn view(&self) -> u16 {
        self.data
    }
}

impl GuitarButtons {
    pub const PS_SELECT: u16 = 0x0001;
    pub const PS_START: u16 = 0x0008;
    pub const STRUM_UP: u16 = 0x0010;
    pub const STRUM_DOWN: u16 = 0x0040;
    pub const FRET_GREEN: u16 = 0x0200;
    pub const FRET_RED: u16 = 0x2000;
    pub const FRET_YELLOW: u16 = 0x1000;
    pub const FRET_BLUE: u16 = 0x4000;
    pub const FRET_ORANGE: u16 = 0x8000;
    pub const STAR_POWER: u16 = 0x0100;

    /// The buttons whose raw bitfield is `bits`.
    pub fn from_bits(bits: u16) -> (r: Self)
        ensures
            r@ == bits,
    {
        GuitarButtons { data: bits }
    }


    /// Whether the button is pressed.
    pub fn select(&self) -> (r: bool)
        ensures
            r == (self@ & Self::PS_SELECT == 0),
    {
        self.data & Self::PS_SELECT == 0
    }

    /// Whether the button is pressed.
    pub fn start(&self) -> (r: bool)
        ensures
            r == (self@ & Self::PS_START == 0),
    {
        self.data & Self::PS_START == 0
    }

    /// Whether the strum bar is pushed up.
    pub fn strum_up(&self) -> (r: bool)
        ensures
            r == (self@ & Self::STRUM_UP == 0),
    {
        self.data & Self::STRUM_UP == 0
    }

    /// Whether the strum bar is pushed down.
    pub fn strum_down(&self) -> (r: bool)
        ensures
            r == (self@ & Self::STRUM_DOWN == 0),
    {
        self.data & Self::STRUM_DOWN == 0
    }

    /// Whether the fret is held.
    pub fn fret_green(&self) -> (r: bool)
        ensures
            r == (self@ & Self::FRET_GREEN == 0),
    {
        self.data & Self::FRET_GREEN == 0
    }

    /// Whether the fret is held.
    pub fn fret_red(&self) -> (r: bool)
        ensures
            r == (self@ & Self::FRET_RED == 0),
    {
        self.data & Self::FRET_RED == 0
    }

    /// Whether the fret is held.
    pub fn fret_yellow(&self) -> (r: bool)
        ensures
            r == (self@ & Self::FRET_YELLOW == 0),
    {
        self.data & Self::FRET_YELLOW == 0
    }

    /// Whether the fret is held.
    pub fn fret_blue(&self) -> (r: bool)
        ensures
            r == (self@ & Self::FRET_BLUE == 0),
    {
        self.data & Self::FRET_BLUE == 0
    }

    /// Whether the fret is held.
    pub fn fret_orange(&self) -> (r: bool)
        ensures
            r == (self@ & Self::FRET_ORANGE == 0),
    {
        self.data & Self::FRET_ORANGE == 0
    }

    /// Whether the star power button is pressed.
    pub fn star_power(&self) -> (r: bool)
        ensures
            r == (self@ & Self::STAR_POWER == 0),
    {
        self.data & Self::STAR_POWER == 0
    }
}

/// The guitar: its buttons and its whammy bar.
#[derive(Clone, Copy, Debug)]
pub struct GuitarHero {
    /// The buttons
    pub buttons: GuitarButtons,
    /// Position of the whammy bar
    pub whammy: u8,
}

impl GuitarHero {
    /// Payload bytes that the record reads.
    pub const SIZE: usize = 6;

    /// Whether this record is the reading of payload `p`: the button word,
    /// three unused bytes, then the whammy bar.
    pub open spec fn decoded_from(&self, p: Seq<u8>) -> bool {
        &&& self.buttons@ == le_word(p[0], p[1])
        &&& self.whammy == p[5]
    }

    /// Reads the record from the payload `p` of a poll response.
    pub fn decode(p: &[u8]) -> (r: Self)
        requires
            p@.len() >= Self::SIZE,
        ensures
            r.decoded_from(p@),
    {
        GuitarHero { buttons: GuitarButtons::from_bits(read_u16_le(p)), whammy: p[5] }
    }

    /// A copy of the guitar's buttons.
    pub fn buttons(&self) -> (r: GuitarButtons)
        ensures
            r == self.buttons,
    {
        self.buttons
    }
}

} // verus!
