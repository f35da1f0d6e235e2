//! Frequencies, kept in whole hertz.

use vstd::prelude::*;

verus! {

/// A frequency in hertz.
#[derive(Debug, Clone, Copy, PartialEq, Eq, Structural)]
pub struct Freq(u32);

impl Freq {
    /// The frequency in hertz.
    pub closed spec fn hz(self) -> nat {
        self.0 as nat
    }

    /// The frequency of `freq` kilohertz. A value beyond what 32 bits of hertz
    /// can hold comes out as the largest frequency there is.
    pub fn from_khz(freq: u32) -> (r: Self)
        ensures
            freq * 1000 <= u32::MAX ==> r.hz() == freq * 1000,
            freq * 1000 > u32::MAX ==> r.hz() == u32::MAX,
    {
        match freq.checked_mul(1000) {
            Some(hz) => Freq(hz),
            None => Freq(u32::MAX),
        }
    }

    /// Reads a 32-bit register as hertz: the register's bits, taken as an
    /// unsigned number.
    pub fn from_i32_hz(freq: i32) -> (r: Self)
        ensures
            freq >= 0 ==> r.hz() == freq,
            freq < 0 ==> r.hz() == freq + 0x1_0000_0000,
    {
        if freq >= 0 {
            Freq(freq as u32)
        } else {
            Freq((freq as i64 + 0x1_0000_0000) as u32)
        }
    }

    pub fn from_u32_hz(freq: u32) -> (r: Self)
        ensures
            r.hz() == freq,
    {
        Freq(freq)
    }

    pub fn as_u32_hz(&self) -> (r: u32)
        ensures
            r == self.hz(),
    {
        self.0
    }

    /// The frequency as a 32-bit register holds it: the same bits, taken as a
    /// signed number.
    pub fn as_i32_hz(&self) -> (r: i32)
        ensures
            self.hz() <= i32::MAX ==> r == self.hz(),
            self.hz() > i32::MAX ==> r == self.hz() - 0x1_0000_0000,
    {
        if self.0 <= 0x7fff_ffff {
            self.0 as i32
        } else {
            (self.0 as i64 - 0x1_0000_0000) as i32
        }
    }
}

} // verus!
