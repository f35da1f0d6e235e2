//! The text-protocol backend, less the socket: the lines it sends to the rig
//! control daemon, what the daemon's answers mean, and the state that
//! survives from one command to the next.
//!
//! A command is one line and is answered by one line. Whoever holds the
//! socket writes the line, reads the answer, and reports here how that went.

use crate::freq::Freq;
use crate::health::{after_probe, FailureCounter};
use crate::rig::{
    connected_label, disconnected_label, unknown_label, valid_rig, Mode, RadioError, Slot, Status,
    StatusView,
};
use crate::text::{
    decimal, first_token, first_word, parse_u32, parse_u32_spec, push_decimal, str_eq, trim,
    trimmed,
};
use vstd::prelude::*;

verus! {

/// The daemon's name for a mode.
pub open spec fn mode_token_of(mode: Mode) -> Seq<char> {
    match mode {
        Mode::USB => "USB"@,
        Mode::LSB => "LSB"@,
        Mode::Data => "PKTUSB"@,
        Mode::CW => "CW"@,
    }
}

/// The line that sets a mode: `M <MODE> 0`.
pub open spec fn mode_line(mode: Mode) -> Seq<char> {
    "M "@ + mode_token_of(mode) + " 0"@
}

/// The line that sets the frequency of a slot: `F <hz>` for slot A and
/// `I <hz>` for slot B.
pub open spec fn frequency_line(slot: Slot, freq: Freq) -> Seq<char> {
    (match slot {
        Slot::A => "F "@,
        Slot::B => "I "@,
    }) + decimal(freq.hz())
}

/// The label of the mode that a token of the daemon names.
pub open spec fn mode_label_of(token: Seq<char>) -> Seq<char> {
    if token == "USB"@ || token == "LSB"@ {
        "SSB"@
    } else if token == "PKTUSB"@ || token == "PKTLSB"@ || token == "RTTY"@ || token == "RTTYR"@ {
        "DIGI"@
    } else if token == "CW"@ || token == "CWR"@ {
        "CW"@
    } else if token == "AM"@ {
        "AM"@
    } else if token == "FM"@ || token == "WFM"@ {
        "FM"@
    } else {
        "unknown"@
    }
}

/// The daemon's name for a mode.
pub fn mode_token(mode: Mode) -> (r: &'static str)
    ensures
        r@ == mode_token_of(mode),
{
    match mode {
        Mode::USB => "USB",
        Mode::LSB => "LSB",
        Mode::Data => "PKTUSB",
        Mode::CW => "CW",
    }
}

/// The line that sets a mode.
pub fn mode_command(mode: Mode) -> (r: String)
    ensures
        r@ == mode_line(mode),
{
    let mut cmd = "M ".to_owned();
    cmd.append(mode_token(mode));
    cmd.append(" 0");
    cmd
}

/// The line that sets the frequency of a slot.
pub fn frequency_command(slot: Slot, freq: Freq) -> (r: String)
    ensures
        r@ == frequency_line(slot, freq),
{
    let mut cmd = match slot {
        Slot::A => "F ".to_owned(),
        Slot::B => "I ".to_owned(),
    };
    push_decimal(&mut cmd, freq.as_u32_hz() as u64);
    cmd
}

/// The label of the mode that a token of the daemon names.
pub fn mode_label(token: &str) -> (r: &'static str)
    ensures
        r@ == mode_label_of(token@),
{
    if str_eq(token, "USB") || str_eq(token, "LSB") {
        "SSB"
    } else if str_eq(token, "PKTUSB") || str_eq(token, "PKTLSB") || str_eq(token, "RTTY")
        || str_eq(token, "RTTYR") {
        "DIGI"
    } else if str_eq(token, "CW") || str_eq(token, "CWR") {
        "CW"
    } else if str_eq(token, "AM") {
        "AM"
    } else if str_eq(token, "FM") || str_eq(token, "WFM") {
        "FM"
    } else {
        "unknown"
    }
}

// ---------------------------------------------------------------------------
// Polling
// ---------------------------------------------------------------------------

/// How far a poll has come.
#[derive(Debug, Clone, Copy, PartialEq, Eq, Structural)]
pub enum PollStage {
    /// The frequency is being asked for.
    Frequency,
    /// The mode is being asked for.
    Mode,
    /// Nothing more is asked.
    Done,
}

/// A poll as plain values: how far it has come and the snapshot so far.
pub struct StatusPollView {
    pub stage: PollStage,
    pub status: StatusView,
}

/// A poll that has asked nothing yet: the snapshot of a rig that is out of
/// reach.
pub open spec fn poll_start(rig: u8) -> StatusPollView {
    StatusPollView {
        stage: PollStage::Frequency,
        status: StatusView {
            freq: 0,
            status: disconnected_label(),
            mode: unknown_label(),
            current_rig: rig,
        },
    }
}

/// A poll after the answer to what it asked; `None` stands for a command that
/// failed.
///
/// - Without an answer to the frequency, the poll is over. With one, the mode
///   is asked next; an answer that is a number of hertz also makes the rig
///   connected, on that frequency.
/// - The first field of the answer to the mode, if there is one, gives the
///   mode's label. With that the poll is over.
pub open spec fn poll_step(poll: StatusPollView, reply: Option<Seq<char>>) -> StatusPollView {
    match poll.stage {
        PollStage::Frequency => match reply {
            None => StatusPollView { stage: PollStage::Done, ..poll },
            Some(text) => match parse_u32_spec(text) {
                Some(hz) => StatusPollView {
                    stage: PollStage::Mode,
                    status: StatusView {
                        freq: hz as nat,
                        status: connected_label(),
                        ..poll.status
                    },
                },
                None => StatusPollView { stage: PollStage::Mode, ..poll },
            },
        },
        PollStage::Mode => match reply {
            Some(text) => match first_token(text) {
                Some(token) => StatusPollView {
                    stage: PollStage::Done,
                    status: StatusView { mode: mode_label_of(token), ..poll.status },
                },
                None => StatusPollView { stage: PollStage::Done, ..poll },
            },
            None => StatusPollView { stage: PollStage::Done, ..poll },
        },
        PollStage::Done => poll,
    }
}

/// One poll of the rig: the commands to send, one after the other, and the
/// snapshot that their answers add up to.
#[derive(Debug)]
pub struct StatusPoll {
    stage: PollStage,
    status: Status,
}

impl View for StatusPoll {
    type V = StatusPollView;

    closed spec fn view(&self) -> StatusPollView {
        StatusPollView { stage: self.stage, status: self.status@ }
    }
}

impl StatusPoll {
    /// The command to send next: `f` for the frequency, `m` for the mode, and
    /// none when the poll is over.
    pub fn query(&self) -> (r: Option<&'static str>)
        ensures
            self@.stage == PollStage::Frequency ==> r is Some && r->0@ == "f"@,
            self@.stage == PollStage::Mode ==> r is Some && r->0@ == "m"@,
            self@.stage == PollStage::Done ==> r is None,
    {
        match self.stage {
            PollStage::Frequency => Some("f"),
            PollStage::Mode => Some("m"),
            PollStage::Done => None,
        }
    }

    /// Takes the answer to the command last sent; `None` stands for a command
    /// that failed.
    pub fn record(self, reply: Option<&str>) -> (r: Self)
        ensures
            r@ == poll_step(
                self@,
                match reply {
                    Some(text) => Some(text@),
                    None => None,
                },
            ),
    {
        let StatusPoll { stage, status } = self;
        let Status { freq, status: link, mode, current_rig } = status;
        match stage {
            PollStage::Frequency => match reply {
                None => StatusPoll {
                    stage: PollStage::Done,
                    status: Status { freq, status: link, mode, current_rig },
                },
                Some(text) => match parse_u32(text) {
                    Some(hz) => StatusPoll {
                        stage: PollStage::Mode,
                        status: Status {
                            freq: hz,
                            status: "connected".to_owned(),
                            mode,
                            current_rig,
                        },
                    },
                    None => StatusPoll {
                        stage: PollStage::Mode,
                        status: Status { freq, status: link, mode, current_rig },
                    },
                },
            },
            PollStage::Mode => {
                let label = match reply {
                    Some(text) => match first_word(text) {
                        Some(token) => Some(mode_label(token)),
                        None => None,
                    },
                    None => None,
                };
                match label {
                    Some(label) => StatusPoll {
                        stage: PollStage::Done,
                        status: Status { freq, status: link, mode: label.to_owned(), current_rig },
                    },
                    None => StatusPoll {
                        stage: PollStage::Done,
                        status: Status { freq, status: link, mode, current_rig },
                    },
                }
            },
            PollStage::Done => StatusPoll {
                stage: PollStage::Done,
                status: Status { freq, status: link, mode, current_rig },
            },
        }
    }

    /// The snapshot the poll has arrived at.
    pub fn into_status(self) -> (r: Status)
        ensures
            r@ == self@.status,
    {
        self.status
    }
}

// ---------------------------------------------------------------------------
// The backend
// ---------------------------------------------------------------------------

/// What the backend remembers.
#[derive(Debug)]
pub struct RigctldRadio {
    host: String,
    port: u16,
    current_rig: u8,
    reconnect_counter: FailureCounter,
    connected: bool,
}

/// What came of a command.
#[derive(Debug)]
pub struct CommandOutcome {
    /// The daemon's answer without the white space around it, if there was
    /// one.
    pub reply: Option<String>,
    /// Whether to connect to the daemon anew.
    pub reconnect: bool,
}

impl RigctldRadio {
    /// The daemon's host.
    pub closed spec fn host(&self) -> Seq<char> {
        self.host@
    }

    /// The daemon's port.
    pub closed spec fn port(&self) -> u16 {
        self.port
    }

    /// The bank that commands and polls address.
    pub closed spec fn selected_rig(&self) -> u8 {
        self.current_rig
    }

    /// How many commands in a row have failed.
    pub closed spec fn failures(&self) -> nat {
        self.reconnect_counter.count()
    }

    /// Whether the last attempt to connect went well.
    pub closed spec fn available(&self) -> bool {
        self.connected
    }

    /// What stays the same when only the health of the link changes.
    pub open spec fn same_settings(&self, other: &Self) -> bool {
        &&& self.host() == other.host()
        &&& self.port() == other.port()
        &&& self.selected_rig() == other.selected_rig()
    }

    /// A backend for the daemon at `host` and `port`, on bank 1, not yet
    /// connected.
    pub fn new(host: String, port: u16) -> (r: Self)
        ensures
            r.host() == host@,
            r.port() == port,
            r.selected_rig() == 1,
            r.failures() == 0,
            !r.available(),
    {
        Self {
            host,
            port,
            current_rig: 1,
            reconnect_counter: FailureCounter::new(),
            connected: false,
        }
    }

    pub fn get_name(&self) -> (r: &'static str)
        ensures
            r@ == "rigctld"@,
    {
        "rigctld"
    }

    pub fn is_available(&self) -> (r: bool)
        ensures
            r == self.available(),
    {
        self.connected
    }

    /// The bank that commands and polls address.
    pub fn current_rig(&self) -> (r: u8)
        ensures
            r == self.selected_rig(),
    {
        self.current_rig
    }

    /// Where to connect: the host, a colon, and the port in decimal.
    pub fn address(&self) -> (r: String)
        ensures
            r@ == self.host() + ":"@ + decimal(self.port() as nat),
    {
        let mut address = self.host.clone();
        address.append(":");
        push_decimal(&mut address, self.port as u64);
        address
    }

    /// Records how an attempt to connect ended.
    pub fn record_connect(&mut self, connected: bool)
        ensures
            final(self).available() == connected,
            final(self).same_settings(old(self)),
            final(self).failures() == old(self).failures(),
    {
        self.connected = connected;
    }

    /// Selects a bank. Any bank but 1 and 2 is turned down and nothing changes.
    pub fn set_rig(&mut self, rig: u8) -> (r: Result<(), RadioError>)
        ensures
            valid_rig(rig) ==> r is Ok && final(self).selected_rig() == rig,
            !valid_rig(rig) ==> r == Err::<(), RadioError>(RadioError::InvalidRig(rig))
                && final(self).selected_rig() == old(self).selected_rig(),
            final(self).host() == old(self).host(),
            final(self).port() == old(self).port(),
            final(self).failures() == old(self).failures(),
            final(self).available() == old(self).available(),
    {
        if rig != 1 && rig != 2 {
            return Err(RadioError::InvalidRig(rig));
        }
        self.current_rig = rig;
        Ok(())
    }

    /// Takes what came back for a command: the line the daemon answered, or
    /// `None` where writing the command or reading the answer failed. An
    /// answer clears the count of failures. A failure adds to it, and the one
    /// that brings it to the threshold calls for connecting anew.
    pub fn complete_command(&mut self, reply: Option<&str>) -> (r: CommandOutcome)
        ensures
            (final(self).failures(), r.reconnect) == after_probe(
                old(self).failures(),
                reply is Some,
            ),
            reply matches Some(line) ==> r.reply is Some && r.reply->0@ == trimmed(line@),
            reply is None ==> r.reply is None,
            final(self).same_settings(old(self)),
            final(self).available() == old(self).available(),
    {
        match reply {
            Some(line) => {
                let reconnect = self.reconnect_counter.record(true);
                CommandOutcome { reply: Some(trim(line).to_owned()), reconnect }
            },
            None => {
                let reconnect = self.reconnect_counter.record(false);
                CommandOutcome { reply: None, reconnect }
            },
        }
    }

    /// Starts a poll of the selected bank.
    pub fn begin_poll(&self) -> (r: StatusPoll)
        ensures
            r@ == poll_start(self.selected_rig()),
    {
        StatusPoll {
            stage: PollStage::Frequency,
            status: Status {
                freq: 0,
                status: "disconnected".to_owned(),
                mode: "unknown".to_owned(),
                current_rig: self.current_rig,
            },
        }
    }
}

/// A poll takes at most two answers, and what it arrives at depends on them
/// alone: no answer to the frequency leaves the rig out of reach, and
/// otherwise the snapshot holds what the two answers gave.
pub proof fn lemma_poll_of_replies(
    rig: u8,
    frequency: Option<Seq<char>>,
    mode: Option<Seq<char>>,
)
    ensures
        frequency is None ==> poll_step(poll_start(rig), frequency) == (StatusPollView {
            stage: PollStage::Done,
            ..poll_start(rig)
        }),
        frequency is Some ==> poll_step(poll_step(poll_start(rig), frequency), mode).stage
            == PollStage::Done,
        poll_step(poll_step(poll_start(rig), frequency), mode).status.current_rig == rig,
        frequency is Some && parse_u32_spec(frequency->0) is Some ==> ({
            let end = poll_step(poll_step(poll_start(rig), frequency), mode).status;
            end.freq == parse_u32_spec(frequency->0)->0 && end.status == connected_label()
        }),
{
}

} // verus!
