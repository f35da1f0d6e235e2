//! The radio abstraction: the values a client can set on a transceiver, the
//! snapshot a transceiver reports, and the interface every backend offers.

use crate::freq::Freq;
use vstd::prelude::*;
use vstd::std_specs::cmp::PartialEqSpecImpl;

verus! {

/// An operating mode a client can ask for.
#[allow(clippy::upper_case_acronyms)]
#[derive(Debug, Clone, Copy, PartialEq, Eq, Structural)]
pub enum Mode {
    USB,
    LSB,
    Data,
    CW,
}

/// One of the two variable-frequency oscillators of a rig.
#[derive(Debug, Clone, Copy, PartialEq, Eq, Structural)]
pub enum Slot {
    A,
    B,
}

/// Whether `rig` names one of the two banks a backend offers.
pub open spec fn valid_rig(rig: u8) -> bool {
    rig == 1 || rig == 2
}

/// Whether `rig` names one of the two banks a backend offers.
pub fn is_valid_rig(rig: u8) -> (r: bool)
    ensures
        r == valid_rig(rig),
{
    rig == 1 || rig == 2
}

/// Why a backend turned a command down.
#[derive(Debug, Clone, Copy, PartialEq, Eq, Structural)]
pub enum RadioError {
    /// The bank asked for is neither 1 nor 2.
    InvalidRig(u8),
}

/// The label of a rig that answers.
pub open spec fn connected_label() -> Seq<char> {
    "connected"@
}

/// The label of a rig that cannot be reached.
pub open spec fn disconnected_label() -> Seq<char> {
    "disconnected"@
}

/// The label of a rig whose state the backend cannot tell.
pub open spec fn unknown_label() -> Seq<char> {
    "unknown"@
}

/// What a status snapshot holds, as plain values.
pub struct StatusView {
    pub freq: nat,
    pub status: Seq<char>,
    pub mode: Seq<char>,
    pub current_rig: u8,
}

/// A snapshot of a rig.
#[derive(Debug)]
pub struct Status {
    /// Frequency of slot A in hertz.
    pub freq: u32,
    /// `connected`, `disconnected` or `unknown`.
    pub status: String,
    /// A short label of the rig's mode.
    pub mode: String,
    /// The bank the snapshot was taken from.
    pub current_rig: u8,
}

impl View for Status {
    type V = StatusView;

    open spec fn view(&self) -> StatusView {
        StatusView {
            freq: self.freq as nat,
            status: self.status@,
            mode: self.mode@,
            current_rig: self.current_rig,
        }
    }
}

impl Clone for Status {
    fn clone(&self) -> (r: Self)
        ensures
            r@ == self@,
    {
        Status {
            freq: self.freq,
            status: self.status.clone(),
            mode: self.mode.clone(),
            current_rig: self.current_rig,
        }
    }
}

impl PartialEq for Status {
    fn eq(&self, other: &Self) -> (r: bool) {
        self.freq == other.freq && self.status == other.status && self.mode == other.mode
            && self.current_rig == other.current_rig
    }
}

impl Eq for Status {

}

impl PartialEqSpecImpl for Status {
    open spec fn obeys_eq_spec() -> bool {
        true
    }

    open spec fn eq_spec(&self, other: &Self) -> bool {
        self@ == other@
    }
}

/// What every backend offers. A backend addresses one of two banks at a time;
/// `selected_rig` is that bank.
pub trait Radio {
    /// The bank that commands and polls address.
    spec fn selected_rig(&self) -> u8;

    /// Tries to acquire whatever the backend needs. Failure is recorded, not
    /// raised.
    fn init(&mut self)
        ensures
            final(self).selected_rig() == old(self).selected_rig(),
    ;

    fn get_name(&self) -> &'static str;

    fn set_mode(&mut self, mode: Mode)
        ensures
            final(self).selected_rig() == old(self).selected_rig(),
    ;

    /// Selects a bank. Any bank but 1 and 2 is turned down and nothing changes.
    fn set_rig(&mut self, rig: u8) -> (r: Result<(), RadioError>)
        ensures
            valid_rig(rig) ==> r is Ok && final(self).selected_rig() == rig,
            !valid_rig(rig) ==> r == Err::<(), RadioError>(RadioError::InvalidRig(rig))
                && final(self).selected_rig() == old(self).selected_rig(),
    ;

    fn set_frequency(&mut self, slot: Slot, freq: Freq)
        ensures
            final(self).selected_rig() == old(self).selected_rig(),
    ;

    /// Polls the rig. The snapshot names the bank it was taken from.
    fn get_status(&mut self) -> (s: Status)
        ensures
            s.current_rig == old(self).selected_rig(),
            final(self).selected_rig() == old(self).selected_rig(),
    ;

    fn is_available(&self) -> bool;
}

} // verus!
