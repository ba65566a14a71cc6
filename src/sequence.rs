//! The escape-mode sequencer: ordered multi-frame handshakes that change a
//! peripheral's reporting mode or motor behaviour, or read its settings.
//!
//! A sequence never touches the bus. `next_frame` gives the bytes to
//! exchange next, and `record` takes what the exchange gave back. A failed
//! exchange ends the sequence at once: nothing is retried and nothing is
//! sent to put the device back, so its configuration is then unknown and
//! the caller starts over with a new sequence.

use crate::codec::{flip, reverse_all};
use crate::commands::Command;
use crate::device::MESSAGE_MAX_LENGTH;
use crate::port::{frame_for, frame_of, PlayStationPort};
use vstd::prelude::*;

verus! {

/// Which handshake a sequence performs.
#[derive(Clone, Copy, Debug, PartialEq, Eq, Structural)]
pub enum Profile {
    /// Analog mode with button pressures, and the DualShock's motors mapped
    Pressure,
    /// Analog mode with the JogCon's wheel motor mapped
    JogCon,
    /// Read the controller's status and constants
    ReadConfig,
}

/// The commands a profile sends, in order. Every profile ends by leaving
/// escape mode; the configuring profiles first wake the device with a poll.
pub open spec fn script(profile: Profile) -> Seq<Command> {
    match profile {
        Profile::Pressure => seq![
            Command::Poll,
            Command::EnterEscapeMode,
            Command::SetMode,
            Command::MotorDualShock,
            Command::InitPressure,
            Command::ResponseFormat,
            Command::ExitEscapeMode,
        ],
        Profile::JogCon => seq![
            Command::Poll,
            Command::EnterEscapeMode,
            Command::SetMode,
            Command::MotorJogCon,
            Command::ExitEscapeMode,
        ],
        Profile::ReadConfig => seq![
            Command::EnterEscapeMode,
            Command::ReadStatus,
            Command::ReadConst1a,
            Command::ReadConst1b,
            Command::ReadConst2,
            Command::ReadConst3a,
            Command::ReadConst3b,
            Command::ExitEscapeMode,
        ],
    }
}

/// The number of commands in a profile.
fn script_len(profile: Profile) -> (r: usize)
    ensures
        r == script(profile).len(),
{
    match profile {
        Profile::Pressure => 7,
        Profile::JogCon => 5,
        Profile::ReadConfig => 8,
    }
}

/// Command `i` of a profile.
fn script_command(profile: Profile, i: usize) -> (r: Command)
    requires
        i < script(profile).len(),
    ensures
        r == script(profile)[i as int],
{
    match profile {
        Profile::Pressure => match i {
            0 => Command::Poll,
            1 => Command::EnterEscapeMode,
            2 => Command::SetMode,
            3 => Command::MotorDualShock,
            4 => Command::InitPressure,
            5 => Command::ResponseFormat,
            _ => Command::ExitEscapeMode,
        },
        Profile::JogCon => match i {
            0 => Command::Poll,
            1 => Command::EnterEscapeMode,
            2 => Command::SetMode,
            3 => Command::MotorJogCon,
            _ => Command::ExitEscapeMode,
        },
        Profile::ReadConfig => match i {
            0 => Command::EnterEscapeMode,
            1 => Command::ReadStatus,
            2 => Command::ReadConst1a,
            3 => Command::ReadConst1b,
            4 => Command::ReadConst2,
            5 => Command::ReadConst3a,
            6 => Command::ReadConst3b,
            _ => Command::ExitEscapeMode,
        },
    }
}

/// The bytes on the wire that carry `command` to the port at `address`.
pub open spec fn wire_frame(address: u8, command: Command) -> Seq<u8> {
    reverse_all(frame_of(address, command.spec_bytes()))
}

/// The controller's status and constants, read in escape mode. Their
/// meaning is not known; they serve diagnostics.
#[derive(Clone, Copy, Debug)]
pub struct ControllerConfiguration {
    /// The controller's current status, and perhaps its generation
    pub status: [u8; 6],
    /// Unknown constant
    pub const1a: [u8; 5],
    /// Unknown constant
    pub const1b: [u8; 5],
    /// Unknown constant
    pub const2: [u8; 5],
    /// Unknown constant
    pub const3a: [u8; 5],
    /// Unknown constant
    pub const3b: [u8; 5],
}

/// Whether every byte of `c` is zero.
pub open spec fn blank(c: ControllerConfiguration) -> bool {
    &&& forall|i: int| 0 <= i < 6 ==> c.status[i] == 0
    &&& forall|i: int| 0 <= i < 5 ==> c.const1a[i] == 0
    &&& forall|i: int| 0 <= i < 5 ==> c.const1b[i] == 0
    &&& forall|i: int| 0 <= i < 5 ==> c.const2[i] == 0
    &&& forall|i: int| 0 <= i < 5 ==> c.const3a[i] == 0
    &&& forall|i: int| 0 <= i < 5 ==> c.const3b[i] == 0
}

/// Whether `after` is `before` with the answer to `command` stored from the
/// response frame `frame`: bytes 3 to 8 for the status, bytes 4 to 8 for a
/// constant; other commands store nothing.
pub open spec fn stored(
    before: ControllerConfiguration,
    after: ControllerConfiguration,
    command: Command,
    frame: Seq<u8>,
) -> bool {
    &&& after.status@ == if command == Command::ReadStatus {
        frame.subrange(3, 9)
    } else {
        before.status@
    }
    &&& after.const1a@ == if command == Command::ReadConst1a {
        frame.subrange(4, 9)
    } else {
        before.const1a@
    }
    &&& after.const1b@ == if command == Command::ReadConst1b {
        frame.subrange(4, 9)
    } else {
        before.const1b@
    }
    &&& after.const2@ == if command == Command::ReadConst2 {
        frame.subrange(4, 9)
    } else {
        before.const2@
    }
    &&& after.const3a@ == if command == Command::ReadConst3a {
        frame.subrange(4, 9)
    } else {
        before.const3a@
    }
    &&& after.const3b@ == if command == Command::ReadConst3b {
        frame.subrange(4, 9)
    } else {
        before.const3b@
    }
}

impl Default for ControllerConfiguration {
    fn default() -> (r: Self)
        ensures
            blank(r),
    {
        ControllerConfiguration {
            status: [0u8; 6],
            const1a: [0u8; 5],
            const1b: [0u8; 5],
            const2: [0u8; 5],
            const3a: [0u8; 5],
            const3b: [0u8; 5],
        }
    }
}

impl ControllerConfiguration {
    /// Stores the part of the response frame `frame` that answers `command`.
    pub fn store(&mut self, command: Command, frame: &[u8; MESSAGE_MAX_LENGTH])
        ensures
            stored(*old(self), *final(self), command, frame@),
    {
        match command {
            Command::ReadStatus => {
                self.status = [frame[3], frame[4], frame[5], frame[6], frame[7], frame[8]];
                assert(self.status@ =~= frame@.subrange(3, 9));
            },
            Command::ReadConst1a => {
                self.const1a = [frame[4], frame[5], frame[6], frame[7], frame[8]];
                assert(self.const1a@ =~= frame@.subrange(4, 9));
            },
            Command::ReadConst1b => {
                self.const1b = [frame[4], frame[5], frame[6], frame[7], frame[8]];
                assert(self.const1b@ =~= frame@.subrange(4, 9));
            },
            Command::ReadConst2 => {
                self.const2 = [frame[4], frame[5], frame[6], frame[7], frame[8]];
                assert(self.const2@ =~= frame@.subrange(4, 9));
            },
            Command::ReadConst3a => {
                self.const3a = [frame[4], frame[5], frame[6], frame[7], frame[8]];
                assert(self.const3a@ =~= frame@.subrange(4, 9));
            },
            Command::ReadConst3b => {
                self.const3b = [frame[4], frame[5], frame[6], frame[7], frame[8]];
                assert(self.const3b@ =~= frame@.subrange(4, 9));
            },
            _ => {},
        }
    }
}

/// Where a sequence stands.
pub struct SequenceState {
    /// The handshake performed
    pub profile: Profile,
    /// The port address every frame carries
    pub address: u8,
    /// How many exchanges have succeeded
    pub answered: nat,
    /// Whether an exchange failed
    pub aborted: bool,
    /// What the answers so far have stored
    pub config: ControllerConfiguration,
}

/// Whether the sequence still has a command to send.
pub open spec fn running(s: SequenceState) -> bool {
    !s.aborted && s.answered < script(s.profile).len()
}

/// Whether every command of the sequence was exchanged successfully.
pub open spec fn completed(s: SequenceState) -> bool {
    !s.aborted && s.answered >= script(s.profile).len()
}

/// The command a running sequence sends next.
pub open spec fn pending(s: SequenceState) -> Command {
    script(s.profile)[s.answered as int]
}

/// One escape-mode handshake in progress.
pub struct EscapeSequence {
    profile: Profile,
    address: u8,
    answered: usize,
    aborted: bool,
    config: ControllerConfiguration,
}

impl View for EscapeSequence {
    type V = SequenceState;

    closed spec fn view(&self) -> SequenceState {
        SequenceState {
            profile: self.profile,
            address: self.address,
            answered: self.answered as nat,
            aborted: self.aborted,
            config: self.config,
        }
    }
}

impl EscapeSequence {
    /// A sequence that performs `profile` on the port at `address`, with
    /// nothing exchanged yet.
    pub fn new(profile: Profile, address: u8) -> (r: Self)
        ensures
            r@.profile == profile,
            r@.address == address,
            r@.answered == 0,
            !r@.aborted,
            blank(r@.config),
    {
        EscapeSequence { profile, address, answered: 0, aborted: false, config: ControllerConfiguration::default() }
    }

    /// Whether the sequence still has a command to send.
    pub fn is_running(&self) -> (r: bool)
        ensures
            r == running(self@),
    {
        !self.aborted && self.answered < script_len(self.profile)
    }

    /// Whether every command of the sequence was exchanged successfully.
    pub fn is_complete(&self) -> (r: bool)
        ensures
            r == completed(self@),
    {
        !self.aborted && self.answered >= script_len(self.profile)
    }

    /// The bytes to exchange next: the pending command's frame, bit-reversed
    /// for the wire; `None` once the sequence has completed or failed.
    pub fn next_frame(&self) -> (r: Option<[u8; MESSAGE_MAX_LENGTH]>)
        ensures
            running(self@) ==> (r matches Some(w) && w@ == wire_frame(self@.address, pending(self@))),
            !running(self@) ==> r is None,
    {
        if self.is_running() {
            let command = script_command(self.profile, self.answered).bytes();
            Some(frame_for(self.address, command.as_slice()))
        } else {
            None
        }
    }

    /// Takes the outcome of the exchange of `next_frame`'s bytes: the bytes
    /// that came back, or the bus's error. Success moves the sequence to its
    /// next command and stores what the answer carries; failure ends the
    /// sequence and hands the error back. A sequence that is not running
    /// stays as it is.
    pub fn record<E>(&mut self, outcome: Result<[u8; MESSAGE_MAX_LENGTH], E>) -> (r: Result<(), E>)
        ensures
            running(old(self)@) ==> (outcome matches Ok(wire) ==> {
                &&& final(self)@.profile == old(self)@.profile
                &&& final(self)@.address == old(self)@.address
                &&& final(self)@.answered == old(self)@.answered + 1
                &&& !final(self)@.aborted
                &&& stored(
                    old(self)@.config,
                    final(self)@.config,
                    pending(old(self)@),
                    reverse_all(wire@),
                )
                &&& r is Ok
            }),
            running(old(self)@) ==> (outcome matches Err(e) ==> {
                &&& final(self)@ == after_failure(old(self)@)
                &&& r == Err::<(), E>(e)
            }),
            !running(old(self)@) ==> final(self)@ == old(self)@,
            outcome is Ok <==> r is Ok,
            outcome matches Err(e) ==> r == Err::<(), E>(e),
    {
        let running = self.is_running();
        match outcome {
            Ok(wire) => {
                if running {
                    let mut frame = wire;
                    flip(&mut frame);
                    let command = script_command(self.profile, self.answered);
                    self.config.store(command, &frame);
                    self.answered = self.answered + 1;
                }
                Ok(())
            },
            Err(e) => {
                if running {
                    self.aborted = true;
                }
                Err(e)
            },
        }
    }

    /// What the answers so far have stored; complete once a `ReadConfig`
    /// sequence has completed.
    pub fn configuration(&self) -> (r: ControllerConfiguration)
        ensures
            r == self@.config,
    {
        self.config
    }
}

impl PlayStationPort {
    /// Starts the handshake that puts a controller in DualShock 2 mode, with
    /// button pressures reported and the DualShock's motors mapped to the
    /// poll command. It also puts a DualShock in analog mode.
    pub fn enable_pressure(&self) -> (r: EscapeSequence)
        ensures
            r@.profile == Profile::Pressure,
            r@.address == self@.spec_address(),
            r@.answered == 0,
            !r@.aborted,
            blank(r@.config),
    {
        EscapeSequence::new(Profile::Pressure, self.address())
    }

    /// Starts the handshake that gives the JogCon's wheel motor to the poll
    /// command. Without a button press for 60 seconds the JogCon sleeps;
    /// without a poll for 10 seconds it falls back to the standard mode.
    pub fn enable_jogcon(&self) -> (r: EscapeSequence)
        ensures
            r@.profile == Profile::JogCon,
            r@.address == self@.spec_address(),
            r@.answered == 0,
            !r@.aborted,
            blank(r@.config),
    {
        EscapeSequence::new(Profile::JogCon, self.address())
    }

    /// Starts the exchange that reads the controller's status and constants;
    /// `configuration` holds them once it has completed.
    pub fn read_config(&self) -> (r: EscapeSequence)
        ensures
            r@.profile == Profile::ReadConfig,
            r@.address == self@.spec_address(),
            r@.answered == 0,
            !r@.aborted,
            blank(r@.config),
    {
        EscapeSequence::new(Profile::ReadConfig, self.address())
    }
}

/// The state `record` leaves after a successful exchange, leaving aside
/// what the answer stores.
pub open spec fn after_success(s: SequenceState) -> SequenceState {
    SequenceState { answered: s.answered + 1, ..s }
}

/// The state `record` leaves after a failed exchange.
pub open spec fn after_failure(s: SequenceState) -> SequenceState {
    SequenceState { aborted: true, ..s }
}

/// The commands that a sequence in state `s` sends when its next exchanges
/// succeed or fail as `outcomes` says (`true` for success): while it runs,
/// each exchange carries the pending command and the outcome moves the
/// state on as `record` does.
pub open spec fn observed(s: SequenceState, outcomes: Seq<bool>) -> Seq<Command>
    decreases outcomes.len(),
{
    if running(s) && outcomes.len() > 0 {
        seq![pending(s)] + if outcomes[0] {
            observed(after_success(s), outcomes.drop_first())
        } else {
            observed(after_failure(s), outcomes.drop_first())
        }
    } else {
        Seq::empty()
    }
}

/// What a sequence sends is the next stretch of its script.
proof fn lemma_observed_prefix(s: SequenceState, outcomes: Seq<bool>)
    requires
        s.answered <= script(s.profile).len(),
    ensures
        s.answered + observed(s, outcomes).len() <= script(s.profile).len(),
        observed(s, outcomes) == script(s.profile).subrange(
            s.answered as int,
            (s.answered + observed(s, outcomes).len()) as int,
        ),
    decreases outcomes.len(),
{
    let o = observed(s, outcomes);
    if running(s) && outcomes.len() > 0 {
        if outcomes[0] {
            lemma_observed_prefix(after_success(s), outcomes.drop_first());
        } else {
            assert(observed(after_failure(s), outcomes.drop_first()) =~= Seq::empty());
        }
    }
    assert(o =~= script(s.profile).subrange(s.answered as int, (s.answered + o.len()) as int));
}

/// With enough successes, a sequence sends the rest of its script.
proof fn lemma_observed_all_succeed(s: SequenceState, outcomes: Seq<bool>)
    requires
        !s.aborted,
        s.answered <= script(s.profile).len(),
        outcomes.len() >= script(s.profile).len() - s.answered,
        forall|i: int| 0 <= i < script(s.profile).len() - s.answered ==> outcomes[i],
    ensures
        observed(s, outcomes) == script(s.profile).subrange(
            s.answered as int,
            script(s.profile).len() as int,
        ),
    decreases outcomes.len(),
{
    let o = observed(s, outcomes);
    let len = script(s.profile).len();
    if s.answered < len {
        let rest = outcomes.drop_first();
        assert forall|i: int| 0 <= i < len - (s.answered + 1) implies rest[i] by {
            assert(rest[i] == outcomes[i + 1]);
        }
        lemma_observed_all_succeed(after_success(s), rest);
    }
    assert(o =~= script(s.profile).subrange(s.answered as int, len as int));
}

/// A sequence sends nothing after a failed exchange.
proof fn lemma_observed_stops(s: SequenceState, outcomes: Seq<bool>, k: int)
    requires
        0 <= k < outcomes.len(),
        !outcomes[k],
    ensures
        observed(s, outcomes).len() <= k + 1,
    decreases outcomes.len(),
{
    if running(s) && outcomes.len() > 0 {
        let rest = outcomes.drop_first();
        if k == 0 {
            assert(observed(after_failure(s), rest) =~= Seq::empty());
        } else {
            assert(!rest[k - 1]);
            if outcomes[0] {
                lemma_observed_stops(after_success(s), rest, k - 1);
            } else {
                assert(observed(after_failure(s), rest) =~= Seq::empty());
            }
        }
    }
}

/// Only the last command of a script leaves escape mode.
proof fn lemma_exit_is_last(profile: Profile)
    ensures
        script(profile).last() == Command::ExitEscapeMode,
        forall|i: int|
            0 <= i < script(profile).len() - 1 ==> script(profile)[i] != Command::ExitEscapeMode,
{
}

/// Sequencing law, for a sequence `s` that has just started. When every
/// exchange succeeds, it sends exactly its profile's commands, in order.
/// When an exchange before the last one fails, it sends nothing after it,
/// and so never sends the command that leaves escape mode.
pub proof fn lemma_sequence_order(s: SequenceState, outcomes: Seq<bool>)
    requires
        s.answered == 0,
        !s.aborted,
    ensures
        outcomes.len() >= script(s.profile).len() && (forall|i: int|
            0 <= i < script(s.profile).len() ==> outcomes[i]) ==> observed(s, outcomes)
            == script(s.profile),
        (exists|k: int|
            0 <= k < script(s.profile).len() - 1 && k < outcomes.len() && !outcomes[k])
            ==> !observed(s, outcomes).contains(Command::ExitEscapeMode),
{
    let o = observed(s, outcomes);
    let len = script(s.profile).len();
    if outcomes.len() >= len && (forall|i: int| 0 <= i < len ==> outcomes[i]) {
        lemma_observed_all_succeed(s, outcomes);
        assert(script(s.profile).subrange(0, len as int) =~= script(s.profile));
    }
    if exists|k: int| 0 <= k < len - 1 && k < outcomes.len() && !outcomes[k] {
        let k = choose|k: int| 0 <= k < len - 1 && k < outcomes.len() && !outcomes[k];
        lemma_observed_stops(s, outcomes, k);
        lemma_observed_prefix(s, outcomes);
        lemma_exit_is_last(s.profile);
        assert forall|j: int| 0 <= j < o.len() implies o[j] != Command::ExitEscapeMode by {
            assert(o[j] == script(s.profile)[j]);
        }
    }
}

/// The pressure profile's order: poll, enter escape mode, set the major
/// mode, map the motors, initialise pressures, set the response format,
/// leave escape mode. A transport sees exactly these when every exchange
/// succeeds, and never sees the exit command when an exchange before the
/// last one fails.
pub proof fn lemma_pressure_order(s: SequenceState, outcomes: Seq<bool>)
    requires
        s.profile == Profile::Pressure,
        s.answered == 0,
        !s.aborted,
    ensures
        script(Profile::Pressure) == seq![
            Command::Poll,
            Command::EnterEscapeMode,
            Command::SetMode,
            Command::MotorDualShock,
            Command::InitPressure,
            Command::ResponseFormat,
            Command::ExitEscapeMode,
        ],
        outcomes.len() >= 7 && (forall|i: int| 0 <= i < 7 ==> outcomes[i]) ==> observed(
            s,
            outcomes,
        ) == script(Profile::Pressure),
        (exists|k: int| 0 <= k < 6 && k < outcomes.len() && !outcomes[k]) ==> !observed(
            s,
            outcomes,
        ).contains(Command::ExitEscapeMode),
{
    lemma_sequence_order(s, outcomes);
}

} // verus!
