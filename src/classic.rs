//! The controller that shipped with the first PlayStation, and the digital
//! buttons that most controllers share with it.

use crate::words::{le_word, read_u16_le};
use vstd::prelude::*;

verus! {

/// The sixteen digital buttons of a standard gamepad, active low: a cleared
/// bit is a pressed button.
#[derive(Clone, Copy, Debug)]
pub struct GamepadButtons {
    data: u16,
}

impl View for GamepadButtons {
    type V = u16;

    closed spec fn view(&self) -> u16 {
        self.data
    }
}

impl GamepadButtons {
    pub const PS_SELECT: u16 = 0x0001;
    pub const PS_L3: u16 = 0x0002;
    pub const PS_R3: u16 = 0x0004;
    pub const PS_START: u16 = 0x0008;
    pub const PS_UP: u16 = 0x0010;
    pub const PS_RIGHT: u16 = 0x0020;
    pub const PS_DOWN: u16 = 0x0040;
    pub const PS_LEFT: u16 = 0x0080;
    pub const PS_L2: u16 = 0x0100;
    pub const PS_R2: u16 = 0x0200;
    pub const PS_L1: u16 = 0x0400;
    pub const PS_R1: u16 = 0x0800;
    pub const PS_TRIANGLE: u16 = 0x1000;
    pub const PS_CIRCLE: u16 = 0x2000;
    pub const PS_CROSS: u16 = 0x4000;
    pub const PS_SQUARE: u16 = 0x8000;

    /// The buttons whose raw bitfield is `bits`.
    pub fn from_bits(bits: u16) -> (r: Self)
        ensures
            r@ == bits,
    {
        GamepadButtons { data: bits }
    }

    /// Two bitfields with the same bits are the same value.
    pub proof fn lemma_view_determines(a: Self, b: Self)
        requires
            a@ == b@,
        ensures
            a == b,
    {
    }

    /// Whether the button is pressed.
    pub fn select(&self) -> (r: bool)
        ensures
            r == (self@ & Self::PS_SELECT == 0),
    {
        self.data & Self::PS_SELECT == 0
    }

    /// Whether the button is pressed.
    pub fn l3(&self) -> (r: bool)
        ensures
            r == (self@ & Self::PS_L3 == 0),
    {
        self.data & Self::PS_L3 == 0
    }

    /// Whether the button is pressed.
    pub fn r3(&self) -> (r: bool)
        ensures
            r == (self@ & Self::PS_R3 == 0),
    {
        self.data & Self::PS_R3 == 0
    }

    /// Whether the button is pressed.
    pub fn start(&self) -> (r: bool)
        ensures
            r == (self@ & Self::PS_START == 0),
    {
        self.data & Self::PS_START == 0
    }

    /// Whether the button is pressed.
    pub fn up(&self) -> (r: bool)
        ensures
            r == (self@ & Self::PS_UP == 0),
    {
        self.data & Self::PS_UP == 0
    }

    /// Whether the button is pressed.
    pub fn right(&self) -> (r: bool)
        ensures
            r == (self@ & Self::PS_RIGHT == 0),
    {
        self.data & Self::PS_RIGHT == 0
    }

    /// Whether the button is pressed.
    pub fn down(&self) -> (r: bool)
        ensures
            r == (self@ & Self::PS_DOWN == 0),
    {
        self.data & Self::PS_DOWN == 0
    }

    /// Whether the button is pressed.
    pub fn left(&self) -> (r: bool)
        ensures
            r == (self@ & Self::PS_LEFT == 0),
    {
        self.data & Self::PS_LEFT == 0
    }

    /// Whether the button is pressed.
    pub fn l2(&self) -> (r: bool)
        ensures
            r == (self@ & Self::PS_L2 == 0),
    {
        self.data & Self::PS_L2 == 0
    }

    /// Whether the button is pressed.
    pub fn r2(&self) -> (r: bool)
        ensures
            r == (self@ & Self::PS_R2 == 0),
    {
        self.data & Self::PS_R2 == 0
    }

    /// Whether the button is pressed.
    pub fn l1(&self) -> (r: bool)
        ensures
            r == (self@ & Self::PS_L1 == 0),
    {
        self.data & Self::PS_L1 == 0
    }

    /// Whether the button is pressed.
    pub fn r1(&self) -> (r: bool)
        ensures
            r == (self@ & Self::PS_R1 == 0),
    {
        self.data & Self::PS_R1 == 0
    }

    /// Whether the button is pressed.
    pub fn triangle(&self) -> (r: bool)
        ensures
            r == (self@ & Self::PS_TRIANGLE == 0),
    {
        self.data & Self::PS_TRIANGLE == 0
    }

    /// Whether the button is pressed.
    pub fn circle(&self) -> (r: bool)
        ensures
            r == (self@ & Self::PS_CIRCLE == 0),
    {
        self.data & Self::PS_CIRCLE == 0
    }

    /// Whether the button is pressed.
    pub fn cross(&self) -> (r: bool)
        ensures
            r == (self@ & Self::PS_CROSS == 0),
    {
        self.data & Self::PS_CROSS == 0
    }

    /// Whether the button is pressed.
    pub fn square(&self) -> (r: bool)
        ensures
            r == (self@ & Self::PS_SQUARE == 0),
    {
        self.data & Self::PS_SQUARE == 0
    }

    /// The raw bitfield, for aggregate tests over several buttons.
    pub fn bits(&self) -> (r: u16)
        ensures
            r == self@,
    {
        self.data
    }
}

/// The standard buttons, which several controller families carry. The
/// first PlayStation controller has no L3 or R3; it reports them as never
/// pressed.
pub trait HasStandardButtons {
    /// A copy of the controller's standard buttons.
    fn buttons(&self) -> GamepadButtons;
}

/// The first PlayStation controller: the standard buttons and nothing else.
#[derive(Clone, Copy, Debug)]
pub struct Classic {
    /// Standard buttons (Cross, Circle, L3, Start, ...)
    pub buttons: GamepadButtons,
}

impl Classic {
    /// Payload bytes that the record reads.
    pub const SIZE: usize = 2;

    /// Whether this record is the reading of payload `p`: the button word in
    /// bytes 0 and 1.
    pub open spec fn decoded_from(&self, p: Seq<u8>) -> bool {
        self.buttons@ == le_word(p[0], p[1])
    }

    /// Reads the record from the payload `p` of a poll response.
    pub fn decode(p: &[u8]) -> (r: Self)
        requires
            p@.len() >= Self::SIZE,
        ensures
            r.decoded_from(p@),
    {
        Classic { buttons: GamepadButtons::from_bits(read_u16_le(p)) }
    }

    /// One payload has one reading.
    pub proof fn lemma_decoded_unique(a: Self, b: Self, p: Seq<u8>)
        requires
            a.decoded_from(p),
            b.decoded_from(p),
        ensures
            a == b,
    {
        GamepadButtons::lemma_view_determines(a.buttons, b.buttons);
    }
}

impl HasStandardButtons for Classic {
    fn buttons(&self) -> (r: GamepadButtons)
        ensures
            r == self.buttons,
    {
        self.buttons
    }
}

} // verus!
