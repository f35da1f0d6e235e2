//! A radio that lives in memory: two banks of two oscillators each, a mode and
//! a selected bank. It always answers.

use crate::freq::Freq;
use crate::rig::{valid_rig, Mode, Radio, RadioError, Slot, Status, StatusView};
use vstd::prelude::*;

verus! {

pub struct DummyRadio {
    mode: Mode,
    freq_a1: Freq,
    freq_b1: Freq,
    freq_a2: Freq,
    freq_b2: Freq,
    current_rig: u8,
}

impl Clone for DummyRadio {
    fn clone(&self) -> (r: Self)
        ensures
            r == *self,
    {
        proof {
            use_type_invariant(self);
        }
        Self {
            mode: self.mode,
            freq_a1: self.freq_a1,
            freq_b1: self.freq_b1,
            freq_a2: self.freq_a2,
            freq_b2: self.freq_b2,
            current_rig: self.current_rig,
        }
    }
}

impl DummyRadio {
    #[verifier::type_invariant]
    spec fn well_formed(self) -> bool {
        valid_rig(self.current_rig)
    }

    /// The mode last set.
    pub closed spec fn mode(self) -> Mode {
        self.mode
    }

    /// What oscillator `slot` of bank `rig` holds. Banks other than 1 count as
    /// bank 2.
    pub closed spec fn frequency(self, rig: u8, slot: Slot) -> Freq {
        match (rig, slot) {
            (1, Slot::A) => self.freq_a1,
            (1, Slot::B) => self.freq_b1,
            (_, Slot::A) => self.freq_a2,
            (_, Slot::B) => self.freq_b2,
        }
    }

    /// The snapshot the radio reports in its present state.
    pub open spec fn status(self) -> StatusView {
        StatusView {
            freq: self.frequency(self.selected_rig(), Slot::A).hz(),
            status: "connected"@,
            mode: "SSB"@,
            current_rig: self.selected_rig(),
        }
    }

    /// Whether `self` and `other` hold the same in every oscillator.
    pub open spec fn same_frequencies(self, other: Self) -> bool {
        forall|rig: u8, slot: Slot|
            valid_rig(rig) ==> #[trigger] self.frequency(rig, slot) == other.frequency(rig, slot)
    }

    /// A radio on bank 1, in upper sideband, with every oscillator at 0 Hz.
    pub fn new() -> (r: Self)
        ensures
            r.selected_rig() == 1,
            r.mode() == Mode::USB,
            forall|rig: u8, slot: Slot| (#[trigger] r.frequency(rig, slot)).hz() == 0,
    {
        Self {
            mode: Mode::USB,
            freq_a1: Freq::from_u32_hz(0),
            freq_b1: Freq::from_u32_hz(0),
            freq_a2: Freq::from_u32_hz(0),
            freq_b2: Freq::from_u32_hz(0),
            current_rig: 1,
        }
    }

    /// The selected bank, which is always one of the two there are.
    pub fn current_rig(&self) -> (r: u8)
        ensures
            r == self.selected_rig(),
            valid_rig(r),
    {
        proof {
            use_type_invariant(self);
        }
        self.current_rig
    }
}

impl Radio for DummyRadio {
    closed spec fn selected_rig(&self) -> u8 {
        self.current_rig
    }

    fn init(&mut self)
        ensures
            *final(self) == *old(self),
    {
    }

    fn get_name(&self) -> (r: &'static str)
        ensures
            r@ == "dummy"@,
    {
        "dummy"
    }

    fn set_mode(&mut self, mode: Mode)
        ensures
            final(self).mode() == mode,
            final(self).same_frequencies(*old(self)),
    {
        proof {
            use_type_invariant(&*self);
        }
        self.mode = mode;
    }

    fn set_rig(&mut self, rig: u8) -> (r: Result<(), RadioError>)
        ensures
            final(self).mode() == old(self).mode(),
            final(self).same_frequencies(*old(self)),
            !valid_rig(rig) ==> *final(self) == *old(self),
    {
        if rig == 1 || rig == 2 {
            self.current_rig = rig;
            Ok(())
        } else {
            Err(RadioError::InvalidRig(rig))
        }
    }

    fn set_frequency(&mut self, slot: Slot, freq: Freq)
        ensures
            final(self).frequency(old(self).selected_rig(), slot) == freq,
            forall|rig: u8, other: Slot|
                valid_rig(rig) && (rig != old(self).selected_rig() || other != slot)
                    ==> #[trigger] final(self).frequency(rig, other) == old(self).frequency(
                    rig,
                    other,
                ),
            final(self).mode() == old(self).mode(),
    {
        proof {
            use_type_invariant(&*self);
        }
        match (slot, self.current_rig) {
            (Slot::A, 1) => {
                self.freq_a1 = freq;
            },
            (Slot::B, 1) => {
                self.freq_b1 = freq;
            },
            (Slot::A, _) => {
                self.freq_a2 = freq;
            },
            (Slot::B, _) => {
                self.freq_b2 = freq;
            },
        }
    }

    fn get_status(&mut self) -> (s: Status)
        ensures
            s@ == old(self).status(),
            valid_rig(s.current_rig),
            *final(self) == *old(self),
    {
        proof {
            use_type_invariant(&*self);
        }
        Status {
            // Slot B is not part of the snapshot.
            freq: if self.current_rig == 1 {
                self.freq_a1.as_u32_hz()
            } else {
                self.freq_a2.as_u32_hz()
            },
            mode: "SSB".to_owned(),
            status: "connected".to_owned(),
            current_rig: self.current_rig,
        }
    }

    fn is_available(&self) -> (r: bool)
        ensures
            r,
    {
        true
    }
}

} // verus!
