//! Sony's DualShock controllers. The same layout serves the Dual Analog and
//! the analog flight stick, which share the DualShock's buttons.

use crate::classic::{GamepadButtons, HasStandardButtons};
use crate::commands::PollCommand;
use crate::words::{le_word, read_u16_le};
use vstd::prelude::*;

verus! {

/// The DualShock: standard buttons and two analog sticks.
#[derive(Clone, Copy, Debug)]
pub struct DualShock {
    /// Standard buttons (Cross, Circle, L3, Start, ...)
    pub buttons: GamepadButtons,
    /// Right analog stick, left and right
    pub rx: u8,
    /// Right analog stick, up and down
    pub ry: u8,
    /// Left analog stick, left and right
    pub lx: u8,
    /// Left analog stick, up and down
    pub ly: u8,
}

impl DualShock {
    /// Payload bytes that the record reads.
    pub const SIZE: usize = 6;

    /// Whether this record is the reading of payload `p`: the button word,
    /// then one byte per stick axis.
    pub open spec fn decoded_from(&self, p: Seq<u8>) -> bool {
        &&& self.buttons@ == le_word(p[0], p[1])
        &&& self.rx == p[2]
        &&& self.ry == p[3]
        &&& self.lx == p[4]
        &&& self.ly == p[5]
    }

    /// Reads the record from the payload `p` of a poll response.
    pub fn decode(p: &[u8]) -> (r: Self)
        requires
            p@.len() >= Self::SIZE,
        ensures
            r.decoded_from(p@),
    {
        DualShock {
            buttons: GamepadButtons::from_bits(read_u16_le(p)),
            rx: p[2],
            ry: p[3],
            lx: p[4],
            ly: p[5],
        }
    }

    /// One payload has one reading.
    pub proof fn lemma_decoded_unique(a: Self, b: Self, p: Seq<u8>)
        requires
            a.decoded_from(p),
            b.decoded_from(p),
        ensures
            a == b,
    {
        GamepadButtons::lemma_view_determines(a.buttons, b.buttons);
    }
}

impl HasStandardButtons for DualShock {
    fn buttons(&self) -> (r: GamepadButtons)
        ensures
            r == self.buttons,
    {
        self.buttons
    }
}

/// The DualShock 2: the DualShock's fields and the pressure readings of the
/// buttons.
#[derive(Clone, Copy, Debug)]
pub struct DualShock2 {
    /// Standard buttons (Cross, Circle, L3, Start, ...)
    pub buttons: GamepadButtons,
    /// Right analog stick, left and right
    pub rx: u8,
    /// Right analog stick, up and down
    pub ry: u8,
    /// Left analog stick, left and right
    pub lx: u8,
    /// Left analog stick, up and down
    pub ly: u8,
    /// Pressure readings of the buttons, as many as the response format asks for
    pub pressures: [u8; 8],
}

impl DualShock2 {
    /// Payload bytes that the record reads.
    pub const SIZE: usize = 14;

    /// Whether this record is the reading of payload `p`: the DualShock
    /// layout, then eight pressure bytes.
    pub open spec fn decoded_from(&self, p: Seq<u8>) -> bool {
        &&& self.buttons@ == le_word(p[0], p[1])
        &&& self.rx == p[2]
        &&& self.ry == p[3]
        &&& self.lx == p[4]
        &&& self.ly == p[5]
        &&& self.pressures@ == p.subrange(6, 14)
    }

    /// Reads the record from the payload `p` of a poll response.
    pub fn decode(p: &[u8]) -> (r: Self)
        requires
            p@.len() >= Self::SIZE,
        ensures
            r.decoded_from(p@),
    {
        let r = DualShock2 {
            buttons: GamepadButtons::from_bits(read_u16_le(p)),
            rx: p[2],
            ry: p[3],
            lx: p[4],
            ly: p[5],
            pressures: [p[6], p[7], p[8], p[9], p[10], p[11], p[12], p[13]],
        };
        assert(r.pressures@ =~= p@.subrange(6, 14));
        r
    }

    /// One payload has one reading.
    pub proof fn lemma_decoded_unique(a: Self, b: Self, p: Seq<u8>)
        requires
            a.decoded_from(p),
            b.decoded_from(p),
        ensures
            a == b,
    {
        GamepadButtons::lemma_view_determines(a.buttons, b.buttons);
        assert(a.pressures =~= b.pressures);
    }
}

impl HasStandardButtons for DualShock2 {
    fn buttons(&self) -> (r: GamepadButtons)
        ensures
            r == self.buttons,
    {
        self.buttons
    }
}

/// Settings for the DualShock's vibration motors, sent with a poll.
#[derive(Clone, Copy, Debug)]
pub struct ControlDS {
    /// Whether to run the small motor
    pub little: bool,
    /// How strongly to run the large motor
    pub big: u8,
}

impl ControlDS {
    /// Motor settings: the small motor on or off, the large one at strength `big`.
    pub fn new(little: bool, big: u8) -> (r: Self)
        ensures
            r.little == little,
            r.big == big,
    {
        Self { little, big }
    }
}

impl PollCommand for ControlDS {
    /// The small motor's byte, 0xff for on and 0x00 for off, then the large
    /// motor's strength.
    open spec fn command_bytes(&self) -> Seq<u8> {
        seq![if self.little { 0xffu8 } else { 0x00u8 }, self.big]
    }

    fn set_command(&self, command: &mut [u8]) {
        command[0] = if self.little {
            0xff
        } else {
            0x00
        };
        command[1] = self.big;
        assert(command@ =~= self.command_bytes() + old(command)@.skip(2));
    }
}

} // verus!
