//! Frame transport: one controller port and the frames exchanged on it.
//!
//! A frame is always `MESSAGE_MAX_LENGTH` bytes: the port address, the rest
//! of the command, then zeros that the bus exchanges for response bytes.
//! Frames travel bit-reversed; the functions here build the bytes to put on
//! the bus and read the bytes that come back. The caller performs the
//! exchange itself, with its chip select held low around it.

use crate::codec::{flip, lemma_flip_involution, reverse_all, reverse_byte};
use crate::commands::PollCommand;
use crate::device::{
    classify_and_decode, device_decodes, known_id, ControllerData, Device, payload_of, HEADER_LEN,
    MESSAGE_MAX_LENGTH, PAYLOAD_LEN,
};
use vstd::prelude::*;

verus! {

/// The port selected on a multitap adapter.
#[derive(Clone, Copy, Debug, PartialEq, Eq, Structural)]
pub enum MultitapPort {
    /// The first port of the multitap, and the only port without one
    A,
    /// The second port of the multitap
    B,
    /// The third port of the multitap
    C,
    /// The fourth port of the multitap
    D,
    /// An address seen while a PlayStation 2 boots; perhaps a memory card
    M,
    /// Perhaps the multitap itself
    X,
}

impl MultitapPort {
    /// The address byte that selects the port.
    pub open spec fn spec_address(self) -> u8 {
        match self {
            MultitapPort::A => 0x01,
            MultitapPort::B => 0x02,
            MultitapPort::C => 0x03,
            MultitapPort::D => 0x04,
            MultitapPort::M => 0x61,
            MultitapPort::X => 0xff,
        }
    }

    /// The address byte that selects the port.
    pub fn address(&self) -> (r: u8)
        ensures
            r == self.spec_address(),
    {
        match self {
            MultitapPort::A => 0x01,
            MultitapPort::B => 0x02,
            MultitapPort::C => 0x03,
            MultitapPort::D => 0x04,
            MultitapPort::M => 0x61,
            MultitapPort::X => 0xff,
        }
    }
}

/// The frame, in host bit order, that carries `command` to the port at
/// `address`: the address in byte 0, the command's later bytes after it,
/// zeros to the end. A command's own byte 0 is a placeholder for the address.
pub open spec fn frame_of(address: u8, command: Seq<u8>) -> Seq<u8> {
    Seq::new(
        MESSAGE_MAX_LENGTH as nat,
        |i: int|
            if i == 0 {
                address
            } else if i < command.len() {
                command[i]
            } else {
                0u8
            },
    )
}

/// The bytes of a poll command with `overlay` written after its header: the
/// poll request, then `overlay`, then zeros.
pub open spec fn poll_data(overlay: Seq<u8>) -> Seq<u8> {
    Seq::new(
        MESSAGE_MAX_LENGTH as nat,
        |i: int|
            if i == 1 {
                0x42u8
            } else if HEADER_LEN <= i < HEADER_LEN + overlay.len() {
                overlay[i - HEADER_LEN]
            } else {
                0u8
            },
    )
}

/// What a poll command adds after the header: nothing, or the bytes of the
/// command that rides along.
pub open spec fn overlay_of<C: PollCommand>(command: Option<&C>) -> Seq<u8> {
    match command {
        Some(c) => c.command_bytes(),
        None => Seq::empty(),
    }
}

/// The bytes to exchange on the bus to send `command` to the port at
/// `address`: its frame, bit-reversed for the wire.
pub fn frame_for(address: u8, command: &[u8]) -> (wire: [u8; MESSAGE_MAX_LENGTH])
    requires
        command@.len() <= MESSAGE_MAX_LENGTH,
    ensures
        wire@ == reverse_all(frame_of(address, command@)),
{
    let mut frame = [0u8; MESSAGE_MAX_LENGTH];
    let n = command.len();
    let mut i: usize = 1;
    while i < n
        invariant
            n == command@.len(),
            n <= MESSAGE_MAX_LENGTH,
            1 <= i,
            i <= n || i == 1,
            frame@.len() == MESSAGE_MAX_LENGTH,
            forall|j: int| 1 <= j < i ==> frame@[j] == command@[j],
            forall|j: int| i <= j < MESSAGE_MAX_LENGTH ==> frame@[j] == 0,
        decreases n - i,
    {
        frame[i] = command[i];
        i = i + 1;
    }
    frame[0] = address;
    assert(frame@ =~= frame_of(address, command@));
    flip(&mut frame);
    frame
}

/// The session state of one controller port: which multitap port its
/// frames address. Selecting a port lasts until another is selected.
#[derive(Clone, Copy, Debug)]
pub struct PlayStationPort {
    multitap_port: MultitapPort,
}

impl View for PlayStationPort {
    type V = MultitapPort;

    closed spec fn view(&self) -> MultitapPort {
        self.multitap_port
    }
}

impl PlayStationPort {
    /// A port that addresses multitap port A, the port of a controller
    /// plugged in directly.
    pub fn new() -> (r: Self)
        ensures
            r@ == MultitapPort::A,
    {
        PlayStationPort { multitap_port: MultitapPort::A }
    }

    /// Directs every later frame to `port`. Without a multitap only `A`
    /// reaches a controller.
    pub fn set_multitap_port(&mut self, port: MultitapPort)
        ensures
            final(self)@ == port,
    {
        self.multitap_port = port;
    }

    /// The multitap port that frames address.
    pub fn multitap_port(&self) -> (r: MultitapPort)
        ensures
            r == self@,
    {
        self.multitap_port
    }

    /// The address byte of the selected port.
    pub fn address(&self) -> (r: u8)
        ensures
            r == self@.spec_address(),
    {
        self.multitap_port.address()
    }

    /// The bytes to exchange on the bus to send `command` to the selected
    /// port: its frame, bit-reversed for the wire.
    pub fn send_command(&self, command: &[u8]) -> (wire: [u8; MESSAGE_MAX_LENGTH])
        requires
            command@.len() <= MESSAGE_MAX_LENGTH,
        ensures
            wire@ == reverse_all(frame_of(self@.spec_address(), command@)),
    {
        frame_for(self.address(), command)
    }

    /// The bytes to exchange on the bus to poll the selected port, with
    /// `command` riding along after the poll header when there is one.
    pub fn read_port<C: PollCommand>(&self, command: Option<&C>) -> (wire: [u8; MESSAGE_MAX_LENGTH])
        requires
            overlay_of(command).len() <= MESSAGE_MAX_LENGTH - HEADER_LEN,
        ensures
            wire@ == reverse_all(frame_of(self@.spec_address(), poll_data(overlay_of(command)))),
    {
        let mut overlay = [0u8; PAYLOAD_LEN];
        if let Some(c) = command {
            c.set_command(&mut overlay);
        }
        let ghost written = overlay_of(command);
        assert(overlay@ == written + Seq::new(
            (MESSAGE_MAX_LENGTH - HEADER_LEN - written.len()) as nat,
            |j: int| 0u8,
        )) by {
            assert(overlay@ =~= written + Seq::new(
                (MESSAGE_MAX_LENGTH - HEADER_LEN - written.len()) as nat,
                |j: int| 0u8,
            ));
        }
        let mut data = [0u8; MESSAGE_MAX_LENGTH];
        data[1] = 0x42;
        let mut i: usize = 0;
        while i < MESSAGE_MAX_LENGTH - HEADER_LEN
            invariant
                i <= MESSAGE_MAX_LENGTH - HEADER_LEN,
                data@.len() == MESSAGE_MAX_LENGTH,
                overlay@.len() == MESSAGE_MAX_LENGTH - HEADER_LEN,
                data@[1] == 0x42,
                data@[0] == 0,
                data@[2] == 0,
                forall|j: int| 0 <= j < i ==> data@[j + HEADER_LEN] == overlay@[j],
                forall|j: int| HEADER_LEN + i <= j < MESSAGE_MAX_LENGTH ==> data@[j] == 0,
            decreases MESSAGE_MAX_LENGTH - HEADER_LEN - i,
        {
            data[i + HEADER_LEN] = overlay[i];
            i = i + 1;
        }
        assert forall|k: int| 0 <= k < MESSAGE_MAX_LENGTH implies #[trigger] data@[k] == poll_data(
            written,
        )[k] by {
            if k >= HEADER_LEN {
                assert(data@[(k - HEADER_LEN) + HEADER_LEN] == overlay@[k - HEADER_LEN]);
            }
        }
        assert(data@ =~= poll_data(written));
        self.send_command(data.as_slice())
    }

    /// The response frame, in host bit order, that came back off the bus as
    /// `wire`.
    pub fn response_frame(wire: &[u8; MESSAGE_MAX_LENGTH]) -> (frame: [u8; MESSAGE_MAX_LENGTH])
        ensures
            frame@ == reverse_all(wire@),
    {
        let mut frame = *wire;
        flip(&mut frame);
        frame
    }

    /// The payload of the poll response that came back off the bus as `wire`.
    pub fn read_raw(wire: &[u8; MESSAGE_MAX_LENGTH]) -> (r: ControllerData)
        ensures
            r.data@ == payload_of(reverse_all(wire@)),
    {
        ControllerData::from_frame(&Self::response_frame(wire))
    }

    /// The device behind the poll response that came back off the bus as
    /// `wire`, with its record.
    pub fn read_input(wire: &[u8; MESSAGE_MAX_LENGTH]) -> (d: Device)
        ensures
            device_decodes(d, reverse_all(wire@)),
            d is Unknown <==> !known_id(reverse_all(wire@)[1]),
    {
        classify_and_decode(&Self::response_frame(wire))
    }
}

/// Addressing law: byte 0 of every frame to a port is that port's address,
/// which goes on the wire bit-reversed; multitap ports A to D have the
/// addresses 1 to 4.
pub proof fn lemma_frames_addressed(port: MultitapPort, command: Seq<u8>)
    ensures
        frame_of(port.spec_address(), command)[0] == port.spec_address(),
        reverse_all(frame_of(port.spec_address(), command))[0] == reverse_byte(
            port.spec_address(),
        ),
        port == MultitapPort::A ==> port.spec_address() == 1,
        port == MultitapPort::B ==> port.spec_address() == 2,
        port == MultitapPort::C ==> port.spec_address() == 3,
        port == MultitapPort::D ==> port.spec_address() == 4,
{
}

/// Round trip through a bus that echoes: when the bytes that come back are
/// the bytes that were sent for `command`, reading them back gives the
/// command's frame in host bit order, addressed to the port.
pub proof fn lemma_echo_round_trip(address: u8, command: Seq<u8>)
    ensures
        reverse_all(reverse_all(frame_of(address, command))) == frame_of(address, command),
        frame_of(address, command)[0] == address,
        forall|i: int|
            1 <= i < command.len() && i < MESSAGE_MAX_LENGTH ==> #[trigger] frame_of(
                address,
                command,
            )[i] == command[i],
{
    lemma_flip_involution(frame_of(address, command));
}

} // verus!
