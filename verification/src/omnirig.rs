//! The automation backend, less the automation itself: the property names and
//! register values its object understands, what its answers mean, and the
//! state that survives from one poll to the next.
//!
//! Whoever holds the automation object reads and writes its properties. What
//! to write, and what to make of what was read, is decided here.

use crate::freq::Freq;
use crate::health::{after_probe, FailureCounter};
use crate::rig::{
    connected_label, disconnected_label, unknown_label, valid_rig, Mode, RadioError, Slot, Status,
    StatusView,
};
use crate::text::str_eq;
use vstd::prelude::*;

verus! {

pub const CW_UPPER: i32 = 0x0080_0000;

pub const CW_LOWER: i32 = 0x0100_0000;

pub const SSB_UPPER: i32 = 0x0200_0000;

pub const SSB_LOWER: i32 = 0x0400_0000;

pub const DIGITAL_UPPER: i32 = 0x0800_0000;

pub const DIGITAL_LOWER: i32 = 0x1000_0000;

pub const AM: i32 = 0x2000_0000;

pub const FM: i32 = 0x4000_0000;

/// The value of the mode register that selects `mode`.
pub open spec fn mode_register(mode: Mode) -> i32 {
    match mode {
        Mode::LSB => SSB_LOWER,
        Mode::USB => SSB_UPPER,
        Mode::CW => CW_UPPER,
        Mode::Data => DIGITAL_UPPER,
    }
}

/// The value of the mode register that selects `mode`.
pub fn mode_flag(mode: Mode) -> (r: i32)
    ensures
        r == mode_register(mode),
{
    match mode {
        Mode::LSB => SSB_LOWER,
        Mode::USB => SSB_UPPER,
        Mode::CW => CW_UPPER,
        Mode::Data => DIGITAL_UPPER,
    }
}

/// The label of what the mode register holds.
pub open spec fn mode_label_of(register: i32) -> Seq<char> {
    if register == SSB_UPPER || register == SSB_LOWER {
        "SSB"@
    } else if register == DIGITAL_UPPER || register == DIGITAL_LOWER {
        "DIGI"@
    } else if register == CW_UPPER || register == CW_LOWER {
        "CW"@
    } else if register == AM {
        "AM"@
    } else if register == FM {
        "FM"@
    } else {
        "Unknown"@
    }
}

/// The label of what the mode register holds.
pub fn mode_label(register: i32) -> (r: &'static str)
    ensures
        r@ == mode_label_of(register),
{
    if register == SSB_UPPER || register == SSB_LOWER {
        "SSB"
    } else if register == DIGITAL_UPPER || register == DIGITAL_LOWER {
        "DIGI"
    } else if register == CW_UPPER || register == CW_LOWER {
        "CW"
    } else if register == AM {
        "AM"
    } else if register == FM {
        "FM"
    } else {
        "Unknown"
    }
}

/// The property that holds the frequency of a slot.
pub fn frequency_property(slot: Slot) -> (r: &'static str)
    ensures
        r@ == (match slot {
            Slot::A => "FreqA"@,
            Slot::B => "FreqB"@,
        }),
{
    match slot {
        Slot::A => "FreqA",
        Slot::B => "FreqB",
    }
}

/// What the status text of a rig says about it.
#[derive(Debug, Clone, Copy, PartialEq, Eq, Structural)]
pub enum RigReport {
    /// `On-line`.
    Online,
    /// `Rig is not responding`.
    NotResponding,
    /// `Port is not available`.
    PortUnavailable,
    /// Anything else.
    Other,
}

impl RigReport {
    /// What a status text says, by exact match.
    pub open spec fn of_text(text: Seq<char>) -> RigReport {
        if text == "On-line"@ {
            RigReport::Online
        } else if text == "Rig is not responding"@ {
            RigReport::NotResponding
        } else if text == "Port is not available"@ {
            RigReport::PortUnavailable
        } else {
            RigReport::Other
        }
    }

    /// The status label for the report.
    pub open spec fn label(self) -> Seq<char> {
        match self {
            RigReport::Online => connected_label(),
            RigReport::NotResponding => disconnected_label(),
            RigReport::PortUnavailable => disconnected_label(),
            RigReport::Other => unknown_label(),
        }
    }

    /// What becomes of a count of failures on the report: a rig that is
    /// on-line clears it, one that does not respond adds to it, and anything
    /// else leaves it alone.
    pub open spec fn counted(self, count: nat) -> (nat, bool) {
        match self {
            RigReport::Online => after_probe(count, true),
            RigReport::NotResponding => after_probe(count, false),
            _ => (count, false),
        }
    }

    /// Reads a status text.
    pub fn parse(text: &str) -> (r: RigReport)
        ensures
            r == RigReport::of_text(text@),
    {
        if str_eq(text, "On-line") {
            RigReport::Online
        } else if str_eq(text, "Rig is not responding") {
            RigReport::NotResponding
        } else if str_eq(text, "Port is not available") {
            RigReport::PortUnavailable
        } else {
            RigReport::Other
        }
    }

    /// The status label for the report.
    pub fn status_label(self) -> (r: &'static str)
        ensures
            r@ == self.label(),
    {
        match self {
            RigReport::Online => "connected",
            RigReport::NotResponding => "disconnected",
            RigReport::PortUnavailable => "disconnected",
            RigReport::Other => "unknown",
        }
    }
}

/// How an attempt to acquire the automation object ended.
#[derive(Debug, Clone, Copy, PartialEq, Eq, Structural)]
pub enum InitOutcome {
    /// The automation runtime could not be entered.
    RuntimeFailed,
    /// The automation object is not installed or not registered.
    NotRegistered,
    /// The automation object could not be created.
    CreateFailed,
    /// The object and both its rig banks are at hand.
    Ready,
}

/// The snapshot made of one poll: the frequency register read as hertz, the
/// labels of the status text and of the mode register, and the bank.
pub open spec fn snapshot(rig: u8, freq: i32, status: Seq<char>, mode: i32) -> StatusView {
    StatusView {
        freq: if freq >= 0 {
            freq as nat
        } else {
            (freq + 0x1_0000_0000) as nat
        },
        status: RigReport::of_text(status).label(),
        mode: mode_label_of(mode),
        current_rig: rig,
    }
}

/// What the backend remembers.
#[derive(Debug, Clone, Copy)]
pub struct OmnirigRadio {
    current_rig: u8,
    reconnect_counter: FailureCounter,
    omnirig_available: bool,
}

impl OmnirigRadio {
    /// The bank that commands and polls address.
    pub closed spec fn selected_rig(self) -> u8 {
        self.current_rig
    }

    /// How many polls in a row found a rig that does not respond.
    pub closed spec fn failures(self) -> nat {
        self.reconnect_counter.count()
    }

    /// Whether the automation object is at hand.
    pub closed spec fn available(self) -> bool {
        self.omnirig_available
    }

    /// A backend on bank 1 that has acquired nothing yet.
    pub fn new() -> (r: Self)
        ensures
            r.selected_rig() == 1,
            r.failures() == 0,
            !r.available(),
    {
        Self { current_rig: 1, reconnect_counter: FailureCounter::new(), omnirig_available: false }
    }

    pub fn is_omnirig_available(&self) -> (r: bool)
        ensures
            r == self.available(),
    {
        self.omnirig_available
    }

    pub fn is_available(&self) -> (r: bool)
        ensures
            r == self.available(),
    {
        self.omnirig_available
    }

    pub fn get_name(&self) -> (r: &'static str)
        ensures
            r@ == "omnirig"@,
    {
        "omnirig"
    }

    /// The bank that commands and polls address.
    pub fn current_rig(&self) -> (r: u8)
        ensures
            r == self.selected_rig(),
    {
        self.current_rig
    }

    /// The property of the automation object that holds the selected bank.
    pub fn rig_property(&self) -> (r: &'static str)
        ensures
            r@ == (if self.selected_rig() == 1 {
                "Rig1"@
            } else {
                "Rig2"@
            }),
    {
        if self.current_rig == 1 {
            "Rig1"
        } else {
            "Rig2"
        }
    }

    /// Records how an attempt to acquire the automation object ended. The
    /// backend is available exactly when the attempt got all the way.
    pub fn record_init(&mut self, outcome: InitOutcome)
        ensures
            final(self).available() == (outcome == InitOutcome::Ready),
            final(self).selected_rig() == old(self).selected_rig(),
            final(self).failures() == old(self).failures(),
    {
        self.omnirig_available = match outcome {
            InitOutcome::Ready => true,
            _ => false,
        };
    }

    /// Selects a bank. Any bank but 1 and 2 is turned down and nothing changes.
    pub fn set_rig(&mut self, rig: u8) -> (r: Result<(), RadioError>)
        ensures
            valid_rig(rig) ==> r is Ok && final(self).selected_rig() == rig,
            !valid_rig(rig) ==> r == Err::<(), RadioError>(RadioError::InvalidRig(rig))
                && final(self).selected_rig() == old(self).selected_rig(),
            final(self).failures() == old(self).failures(),
            final(self).available() == old(self).available(),
    {
        if rig != 1 && rig != 2 {
            return Err(RadioError::InvalidRig(rig));
        }
        self.current_rig = rig;
        Ok(())
    }

    /// Makes a snapshot of what a poll read from the selected bank, and says
    /// whether the automation object is to be acquired anew.
    pub fn record_status(&mut self, freq: i32, status_str: &str, mode: i32) -> (r: (Status, bool))
        ensures
            r.0@ == snapshot(old(self).selected_rig(), freq, status_str@, mode),
            (final(self).failures(), r.1) == RigReport::of_text(status_str@).counted(
                old(self).failures(),
            ),
            final(self).selected_rig() == old(self).selected_rig(),
            final(self).available() == old(self).available(),
    {
        let freq = Freq::from_i32_hz(freq);
        let report = RigReport::parse(status_str);
        let restart = match report {
            RigReport::Online => self.reconnect_counter.record(true),
            RigReport::NotResponding => self.reconnect_counter.record(false),
            _ => false,
        };
        let status = Status {
            freq: freq.as_u32_hz(),
            status: report.status_label().to_owned(),
            mode: mode_label(mode).to_owned(),
            current_rig: self.current_rig,
        };
        (status, restart)
    }
}

} // verus!
