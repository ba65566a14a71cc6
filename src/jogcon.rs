//! Namco's JogCon: a controller with a motorised jog wheel in its centre.

use crate::classic::{GamepadButtons, HasStandardButtons};
use crate::commands::PollCommand;
use crate::words::{le_word, read_i16_le, read_u16_le, signed_word};
use vstd::prelude::*;

verus! {

/// What the JogCon's wheel should do after the poll that carries it.
#[derive(Clone, Copy, Debug, PartialEq, Eq, Structural)]
pub enum JogControl {
    /// Stop the motor
    Stop,
    /// Hold the wheel in position, and return it there if it moves
    Hold,
    /// Turn the wheel left
    Left,
    /// Turn the wheel right
    Right,
    /// Forget the whole revolutions turned; keep only the angle back to the start
    DropRevolutions,
    /// Forget the whole revolutions turned and return to the starting angle
    DropAndHold,
    /// Take the current position as the new hold position
    NewHold,
}

impl JogControl {
    /// The wire code of the mode, in the high nibble of the command byte.
    pub open spec fn spec_code(self) -> u8 {
        match self {
            JogControl::Stop => 0x00,
            JogControl::Hold => 0x30,
            JogControl::Left => 0x20,
            JogControl::Right => 0x10,
            JogControl::DropRevolutions => 0x80,
            JogControl::DropAndHold => 0xb0,
            JogControl::NewHold => 0xc0,
        }
    }

    /// The wire code of the mode.
    pub fn code(&self) -> (r: u8)
        ensures
            r == self.spec_code(),
    {
        match self {
            JogControl::Stop => 0x00,
            JogControl::Hold => 0x30,
            JogControl::Left => 0x20,
            JogControl::Right => 0x10,
            JogControl::DropRevolutions => 0x80,
            JogControl::DropAndHold => 0xb0,
            JogControl::NewHold => 0xc0,
        }
    }
}

/// What the JogCon's wheel did since the last poll.
#[derive(Clone, Copy, Debug, PartialEq, Eq, Structural)]
pub enum JogState {
    /// The wheel was turned left
    TurnedLeft,
    /// The wheel was turned right
    TurnedRight,
    /// The wheel reached the largest distance it can record
    AtMaximum,
}

/// The JogCon: the standard buttons, the wheel's position as its two wire
/// bytes, and the wheel's state byte.
#[derive(Clone, Copy, Debug)]
pub struct JogCon {
    /// Standard buttons (Cross, Circle, L3, Start, ...)
    pub buttons: GamepadButtons,
    /// Absolute position of the wheel, least significant byte first
    pub jog_position: [u8; 2],
    /// State of the wheel
    pub jog_state: u8,
}

impl JogCon {
    /// Payload bytes that the record reads.
    pub const SIZE: usize = 5;

    /// Whether this record is the reading of payload `p`: the button word,
    /// the two position bytes, then the state byte.
    pub open spec fn decoded_from(&self, p: Seq<u8>) -> bool {
        &&& self.buttons@ == le_word(p[0], p[1])
        &&& self.jog_position@ == p.subrange(2, 4)
        &&& self.jog_state == p[4]
    }

    /// Reads the record from the payload `p` of a poll response.
    pub fn decode(p: &[u8]) -> (r: Self)
        requires
            p@.len() >= Self::SIZE,
        ensures
            r.decoded_from(p@),
    {
        let r = JogCon {
            buttons: GamepadButtons::from_bits(read_u16_le(p)),
            jog_position: [p[2], p[3]],
            jog_state: p[4],
        };
        assert(r.jog_position@ =~= p@.subrange(2, 4));
        r
    }

    /// One payload has one reading.
    pub proof fn lemma_decoded_unique(a: Self, b: Self, p: Seq<u8>)
        requires
            a.decoded_from(p),
            b.decoded_from(p),
        ensures
            a == b,
    {
        GamepadButtons::lemma_view_determines(a.buttons, b.buttons);
        assert(a.jog_position =~= b.jog_position);
    }

    /// The absolute position of the wheel, a signed little-endian word.
    pub fn jog_position(&self) -> (r: i16)
        ensures
            r == signed_word(le_word(self.jog_position[0], self.jog_position[1])),
    {
        read_i16_le(self.jog_position.as_slice())
    }
}

impl HasStandardButtons for JogCon {
    fn buttons(&self) -> (r: GamepadButtons)
        ensures
            r == self.buttons,
    {
        self.buttons
    }
}

/// Settings for the JogCon's wheel motor, sent with a poll.
#[derive(Clone, Copy, Debug)]
pub struct ControlJC {
    /// What the wheel should do
    pub mode: JogControl,
    /// How strongly the motor should work; only the low nibble is sent
    pub strength: u8,
}

impl ControlJC {
    /// Wheel settings: a mode and a motor strength.
    pub fn new(mode: JogControl, strength: u8) -> (r: Self)
        ensures
            r.mode == mode,
            r.strength == strength,
    {
        Self { mode, strength }
    }
}

impl PollCommand for ControlJC {
    /// One byte: the mode's code, with the strength's low nibble beside it.
    open spec fn command_bytes(&self) -> Seq<u8> {
        seq![self.mode.spec_code() | (self.strength & 0x0f)]
    }

    fn set_command(&self, command: &mut [u8]) {
        command[0] = self.mode.code() | (self.strength & 0x0f);
        assert(command@ =~= self.command_bytes() + old(command)@.skip(1));
    }
}

} // verus!
