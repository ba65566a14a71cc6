//! Commands: the fixed catalog of protocol commands, and the poll commands
//! that carry motor or wheel settings with a poll.

use vstd::prelude::*;

verus! {

/// The protocol's commands, each a fixed byte sequence. Byte 0 of each is
/// a placeholder that the port address replaces.
#[derive(Clone, Copy, Debug, PartialEq, Eq, Structural)]
pub enum Command {
    /// Poll the buttons; also wakes a controller before escape mode
    Poll,
    /// Enter escape mode
    EnterEscapeMode,
    /// Leave escape mode
    ExitEscapeMode,
    /// Set the response format; asks for every field
    ResponseFormat,
    /// Initialise the pressure readings
    InitPressure,
    /// Set the major mode to analog (DualShock) and lock it
    SetMode,
    /// Read the extended status
    ReadStatus,
    /// Read constant 1 at address 0
    ReadConst1a,
    /// Read constant 1 at address 1
    ReadConst1b,
    /// Read constant 2 at address 0
    ReadConst2,
    /// Read constant 3 at address 0
    ReadConst3a,
    /// Read constant 3 at address 1
    ReadConst3b,
    /// Map the DualShock's motors to the poll command bytes
    MotorDualShock,
    /// Map the JogCon's wheel motor to the poll command bytes
    MotorJogCon,
}

impl Command {
    /// The command's bytes.
    pub open spec fn spec_bytes(self) -> Seq<u8> {
        match self {
            Command::Poll => seq![0x00u8, 0x42, 0x00],
            Command::EnterEscapeMode => seq![0x00u8, 0x43, 0x00, 0x01, 0x00],
            Command::ExitEscapeMode => seq![0x00u8, 0x43, 0x00, 0x00, 0x00],
            Command::ResponseFormat => seq![0x00u8, 0x4F, 0x00, 0xFF, 0xFF, 0x03, 0x00, 0x00, 0x00],
            Command::InitPressure => seq![0x00u8, 0x40, 0x00, 0x00, 0x02, 0x00, 0x00, 0x00, 0x00],
            Command::SetMode => seq![0x00u8, 0x44, 0x00, 0x01, 0x00, 0x00, 0x00, 0x00, 0x00],
            Command::ReadStatus => seq![0x00u8, 0x45, 0x00, 0x5a, 0x5a, 0x5a, 0x5a, 0x5a, 0x5a],
            Command::ReadConst1a => seq![0x00u8, 0x46, 0x00, 0x00, 0x5a, 0x5a, 0x5a, 0x5a, 0x5a],
            Command::ReadConst1b => seq![0x00u8, 0x46, 0x00, 0x01, 0x5a, 0x5a, 0x5a, 0x5a, 0x5a],
            Command::ReadConst2 => seq![0x00u8, 0x47, 0x00, 0x00, 0x5a, 0x5a, 0x5a, 0x5a, 0x5a],
            Command::ReadConst3a => seq![0x00u8, 0x4C, 0x00, 0x00, 0x5a, 0x5a, 0x5a, 0x5a, 0x5a],
            Command::ReadConst3b => seq![0x00u8, 0x4C, 0x00, 0x01, 0x5a, 0x5a, 0x5a, 0x5a, 0x5a],
            Command::MotorDualShock => seq![0x00u8, 0x4D, 0x00, 0x00, 0x01, 0xff, 0xff, 0xff, 0xff],
            Command::MotorJogCon => seq![0x00u8, 0x4D, 0x00, 0x00, 0xff, 0xff, 0xff, 0xff, 0xff],
        }
    }

    /// The command's bytes.
    pub fn bytes(&self) -> (r: Vec<u8>)
        ensures
            r@ == self.spec_bytes(),
    {
        match self {
            Command::Poll => vec![0x00u8, 0x42, 0x00],
            Command::EnterEscapeMode => vec![0x00u8, 0x43, 0x00, 0x01, 0x00],
            Command::ExitEscapeMode => vec![0x00u8, 0x43, 0x00, 0x00, 0x00],
            Command::ResponseFormat => vec![0x00u8, 0x4F, 0x00, 0xFF, 0xFF, 0x03, 0x00, 0x00, 0x00],
            Command::InitPressure => vec![0x00u8, 0x40, 0x00, 0x00, 0x02, 0x00, 0x00, 0x00, 0x00],
            Command::SetMode => vec![0x00u8, 0x44, 0x00, 0x01, 0x00, 0x00, 0x00, 0x00, 0x00],
            Command::ReadStatus => vec![0x00u8, 0x45, 0x00, 0x5a, 0x5a, 0x5a, 0x5a, 0x5a, 0x5a],
            Command::ReadConst1a => vec![0x00u8, 0x46, 0x00, 0x00, 0x5a, 0x5a, 0x5a, 0x5a, 0x5a],
            Command::ReadConst1b => vec![0x00u8, 0x46, 0x00, 0x01, 0x5a, 0x5a, 0x5a, 0x5a, 0x5a],
            Command::ReadConst2 => vec![0x00u8, 0x47, 0x00, 0x00, 0x5a, 0x5a, 0x5a, 0x5a, 0x5a],
            Command::ReadConst3a => vec![0x00u8, 0x4C, 0x00, 0x00, 0x5a, 0x5a, 0x5a, 0x5a, 0x5a],
            Command::ReadConst3b => vec![0x00u8, 0x4C, 0x00, 0x01, 0x5a, 0x5a, 0x5a, 0x5a, 0x5a],
            Command::MotorDualShock => vec![0x00u8, 0x4D, 0x00, 0x00, 0x01, 0xff, 0xff, 0xff, 0xff],
            Command::MotorJogCon => vec![0x00u8, 0x4D, 0x00, 0x00, 0xff, 0xff, 0xff, 0xff, 0xff],
        }
    }
}

/// A command that rides along with a poll request, written over the bytes
/// after the poll header.
pub trait PollCommand {
    /// The bytes this command writes at the start of the area it is given.
    spec fn command_bytes(&self) -> Seq<u8>;

    /// Rewrites the start of `command` with this command's bytes and leaves
    /// the rest as it was.
    fn set_command(&self, command: &mut [u8])
        requires
            old(command)@.len() >= self.command_bytes().len(),
        ensures
            final(command)@ == self.command_bytes() + old(command)@.skip(
                self.command_bytes().len() as int,
            ),
    ;
}

} // verus!
