//! Identifying the device behind a poll response and reading its record.

use crate::baton::Baton;
use crate::classic::Classic;
use crate::dualshock::{DualShock, DualShock2};
use crate::guitarhero::GuitarHero;
use crate::guncon::GunCon;
use crate::jogcon::JogCon;
use crate::mouse::Mouse;
use crate::negcon::NegCon;
use vstd::prelude::*;

verus! {

/// Length of every frame on the bus.
pub const MESSAGE_MAX_LENGTH: usize = 32;

/// Length of a response's header: port address, identification, acknowledgement.
pub const HEADER_LEN: usize = 3;

/// Length of a response's payload, the bytes after its header.
pub const PAYLOAD_LEN: usize = MESSAGE_MAX_LENGTH - HEADER_LEN;

/// No controller answered.
pub const CONTROLLER_NOT_PRESENT: u8 = 0xff;

/// PlayStation mouse, SCPH-1030.
pub const CONTROLLER_MOUSE: u8 = 0x12;

/// First PlayStation controller, SCPH-1080.
pub const CONTROLLER_CLASSIC: u8 = 0xc1;

/// Analog flight stick, SCPH-1110.
pub const CONTROLLER_ANALOG_JOYSTICK: u8 = 0x53;

/// DualShock in digital mode.
pub const CONTROLLER_DUALSHOCK_DIGITAL: u8 = 0x41;

/// DualShock in analog mode.
pub const CONTROLLER_DUALSHOCK_ANALOG: u8 = 0x73;

/// DualShock 2 reporting button pressures.
pub const CONTROLLER_DUALSHOCK_PRESSURE: u8 = 0x79;

/// Namco JogCon.
pub const CONTROLLER_JOGCON: u8 = 0xe3;

/// Namco NeGcon.
pub const CONTROLLER_NEGCON: u8 = 0x23;

/// Namco GunCon.
pub const CONTROLLER_GUNCON: u8 = 0x63;

/// A controller waiting for configuration data.
pub const CONTROLLER_CONFIGURATION: u8 = 0xf3;

/// What a poll found on the port. The identification byte of the response
/// (device family in its high nibble, payload words in its low nibble)
/// picks the variant; the payload is read as that family's record.
#[derive(Clone, Copy, Debug)]
pub enum Device {
    /// Nothing answered the poll; a timeout looks the same
    NotPresent,
    /// A device whose identification byte this library does not know
    Unknown,
    /// A controller waiting for configuration data; seen only in the middle of
    /// an escape-mode sequence
    ConfigurationMode,
    /// The PlayStation mouse
    Mouse(Mouse),
    /// The first PlayStation controller, or a DualShock in digital mode
    Classic(Classic),
    /// The analog flight stick, which reports like a DualShock
    AnalogJoystick(DualShock),
    /// The DualShock, in analog mode
    DualShock(DualShock),
    /// The DualShock 2, reporting button pressures
    DualShock2(DualShock2),
    /// The Guitar Hero guitar; it identifies as a DualShock, so a poll never
    /// yields it by itself
    GuitarHero(GuitarHero),
    /// The Namco JogCon
    JogCon(JogCon),
    /// The Namco NeGcon
    NegCon(NegCon),
    /// The Namco GunCon
    GunCon(GunCon),
    /// The Mad Maestro baton; like the guitar, never yielded by a poll by itself
    Baton(Baton),
}

/// The payload of a response frame: the frame without its header, padded
/// with zeros back to a full frame.
pub open spec fn payload_of(frame: Seq<u8>) -> Seq<u8> {
    frame.subrange(HEADER_LEN as int, MESSAGE_MAX_LENGTH as int) + seq![0u8, 0u8, 0u8]
}

/// Whether the library knows the identification byte `id`.
pub open spec fn known_id(id: u8) -> bool {
    ||| id == CONTROLLER_NOT_PRESENT
    ||| id == CONTROLLER_CONFIGURATION
    ||| id == CONTROLLER_MOUSE
    ||| id == CONTROLLER_CLASSIC
    ||| id == CONTROLLER_ANALOG_JOYSTICK
    ||| id == CONTROLLER_DUALSHOCK_DIGITAL
    ||| id == CONTROLLER_DUALSHOCK_ANALOG
    ||| id == CONTROLLER_DUALSHOCK_PRESSURE
    ||| id == CONTROLLER_JOGCON
    ||| id == CONTROLLER_NEGCON
    ||| id == CONTROLLER_GUNCON
}

/// Whether `d` is what the response frame `frame` reports: the variant that
/// its identification byte names, holding the reading of its payload.
pub open spec fn device_decodes(d: Device, frame: Seq<u8>) -> bool {
    let id = frame[1];
    let p = payload_of(frame);
    if id == CONTROLLER_NOT_PRESENT {
        d is NotPresent
    } else if id == CONTROLLER_CONFIGURATION {
        d is ConfigurationMode
    } else if id == CONTROLLER_MOUSE {
        d matches Device::Mouse(m) && m.decoded_from(p)
    } else if id == CONTROLLER_CLASSIC || id == CONTROLLER_DUALSHOCK_DIGITAL {
        d matches Device::Classic(c) && c.decoded_from(p)
    } else if id == CONTROLLER_ANALOG_JOYSTICK {
        d matches Device::AnalogJoystick(s) && s.decoded_from(p)
    } else if id == CONTROLLER_DUALSHOCK_ANALOG {
        d matches Device::DualShock(s) && s.decoded_from(p)
    } else if id == CONTROLLER_DUALSHOCK_PRESSURE {
        d matches Device::DualShock2(s) && s.decoded_from(p)
    } else if id == CONTROLLER_JOGCON {
        d matches Device::JogCon(j) && j.decoded_from(p)
    } else if id == CONTROLLER_NEGCON {
        d matches Device::NegCon(n) && n.decoded_from(p)
    } else if id == CONTROLLER_GUNCON {
        d matches Device::GunCon(g) && g.decoded_from(p)
    } else {
        d is Unknown
    }
}

/// The payload of a poll response, which each family's record reads from
/// its start.
#[derive(Clone, Copy, Debug)]
pub struct ControllerData {
    /// The payload bytes
    pub data: [u8; MESSAGE_MAX_LENGTH],
}

impl ControllerData {
    /// The payload of the response frame `frame`.
    pub fn from_frame(frame: &[u8; MESSAGE_MAX_LENGTH]) -> (r: Self)
        ensures
            r.data@ == payload_of(frame@),
    {
        let mut data = [0u8; MESSAGE_MAX_LENGTH];
        let mut i: usize = 0;
        while i < MESSAGE_MAX_LENGTH - HEADER_LEN
            invariant
                i <= MESSAGE_MAX_LENGTH - HEADER_LEN,
                data@.len() == MESSAGE_MAX_LENGTH,
                forall|j: int| 0 <= j < i ==> data@[j] == frame@[j + HEADER_LEN],
                forall|j: int| i <= j < MESSAGE_MAX_LENGTH ==> data@[j] == 0,
            decreases MESSAGE_MAX_LENGTH - HEADER_LEN - i,
        {
            data[i] = frame[i + HEADER_LEN];
            i = i + 1;
        }
        assert(data@ =~= payload_of(frame@));
        ControllerData { data }
    }

    /// The payload read as a Guitar Hero guitar.
    pub fn gh(&self) -> (r: GuitarHero)
        ensures
            r.decoded_from(self.data@),
    {
        GuitarHero::decode(self.data.as_slice())
    }

    /// The payload read as a baton.
    pub fn b(&self) -> (r: Baton)
        ensures
            r.decoded_from(self.data@),
    {
        Baton::decode(self.data.as_slice())
    }

    /// The payload read as a mouse.
    pub fn pm(&self) -> (r: Mouse)
        ensures
            r.decoded_from(self.data@),
    {
        Mouse::decode(self.data.as_slice())
    }

    /// The payload read as a first PlayStation controller.
    pub fn classic(&self) -> (r: Classic)
        ensures
            r.decoded_from(self.data@),
    {
        Classic::decode(self.data.as_slice())
    }

    /// The payload read as a DualShock.
    pub fn ds(&self) -> (r: DualShock)
        ensures
            r.decoded_from(self.data@),
    {
        DualShock::decode(self.data.as_slice())
    }

    /// The payload read as a DualShock 2.
    pub fn ds2(&self) -> (r: DualShock2)
        ensures
            r.decoded_from(self.data@),
    {
        DualShock2::decode(self.data.as_slice())
    }

    /// The payload read as a JogCon.
    pub fn jc(&self) -> (r: JogCon)
        ensures
            r.decoded_from(self.data@),
    {
        JogCon::decode(self.data.as_slice())
    }

    /// The payload read as a NeGcon.
    pub fn nc(&self) -> (r: NegCon)
        ensures
            r.decoded_from(self.data@),
    {
        NegCon::decode(self.data.as_slice())
    }

    /// The payload read as a GunCon.
    pub fn gc(&self) -> (r: GunCon)
        ensures
            r.decoded_from(self.data@),
    {
        GunCon::decode(self.data.as_slice())
    }
}

/// Identifies the device behind the response frame `frame` (in host bit
/// order) by its identification byte, and reads its payload as that
/// family's record. Every identification byte has an answer: one this
/// library does not know gives `Device::Unknown`.
pub fn classify_and_decode(frame: &[u8; MESSAGE_MAX_LENGTH]) -> (d: Device)
    ensures
        device_decodes(d, frame@),
        d is Unknown <==> !known_id(frame@[1]),
{
    let data = ControllerData::from_frame(frame);
    let id = frame[1];
    if id == CONTROLLER_NOT_PRESENT {
        Device::NotPresent
    } else if id == CONTROLLER_CONFIGURATION {
        Device::ConfigurationMode
    } else if id == CONTROLLER_MOUSE {
        Device::Mouse(data.pm())
    } else if id == CONTROLLER_CLASSIC || id == CONTROLLER_DUALSHOCK_DIGITAL {
        Device::Classic(data.classic())
    } else if id == CONTROLLER_ANALOG_JOYSTICK {
        Device::AnalogJoystick(data.ds())
    } else if id == CONTROLLER_DUALSHOCK_ANALOG {
        Device::DualShock(data.ds())
    } else if id == CONTROLLER_DUALSHOCK_PRESSURE {
        Device::DualShock2(data.ds2())
    } else if id == CONTROLLER_JOGCON {
        Device::JogCon(data.jc())
    } else if id == CONTROLLER_NEGCON {
        Device::NegCon(data.nc())
    } else if id == CONTROLLER_GUNCON {
        Device::GunCon(data.gc())
    } else {
        Device::Unknown
    }
}

/// Decoding is a function of the frame: two records that both decode the
/// same frame are the same record, so repeated decoding of one frame gives
/// identical results.
pub proof fn lemma_decode_deterministic(frame: Seq<u8>, d1: Device, d2: Device)
    requires
        device_decodes(d1, frame),
        device_decodes(d2, frame),
    ensures
        d1 == d2,
{
    let p = payload_of(frame);
    match (d1, d2) {
        (Device::Mouse(a), Device::Mouse(b)) => Mouse::lemma_decoded_unique(a, b, p),
        (Device::Classic(a), Device::Classic(b)) => Classic::lemma_decoded_unique(a, b, p),
        (Device::AnalogJoystick(a), Device::AnalogJoystick(b)) => {
            DualShock::lemma_decoded_unique(a, b, p)
        },
        (Device::DualShock(a), Device::DualShock(b)) => DualShock::lemma_decoded_unique(a, b, p),
        (Device::DualShock2(a), Device::DualShock2(b)) => {
            DualShock2::lemma_decoded_unique(a, b, p)
        },
        (Device::JogCon(a), Device::JogCon(b)) => JogCon::lemma_decoded_unique(a, b, p),
        (Device::NegCon(a), Device::NegCon(b)) => NegCon::lemma_decoded_unique(a, b, p),
        (Device::GunCon(a), Device::GunCon(b)) => GunCon::lemma_decoded_unique(a, b, p),
        _ => {},
    }
}

} // verus!
