//! Protocol engine for PlayStation controller-port peripherals.
//!
//! The library frames commands for the controller bus, corrects the bus's
//! inverted bit order, sequences the escape-mode handshakes that unlock
//! extended features, and decodes poll responses into typed device records.
//! It performs no I/O itself: the caller exchanges the frames it builds on
//! the bus, with its chip select low around each exchange, and hands back
//! what came in.

pub mod baton;
pub mod classic;
pub mod codec;
pub mod commands;
pub mod device;
pub mod dualshock;
pub mod error;
pub mod guitarhero;
pub mod guncon;
pub mod jogcon;
pub mod mouse;
pub mod negcon;
pub mod port;
pub mod sequence;
pub mod words;

pub use classic::HasStandardButtons;
pub use commands::{Command, PollCommand};
pub use device::{classify_and_decode, ControllerData, Device, MESSAGE_MAX_LENGTH};
pub use error::Error;
pub use port::{MultitapPort, PlayStationPort};
pub use sequence::{ControllerConfiguration, EscapeSequence, Profile};
