//! The two closed choices of a configuration: the rate at which samples
//! arrive and the power-line frequency that the notch removes.

use vstd::prelude::*;

verus! {

/// Power-line frequency that the notch stage removes.
#[derive(PartialEq, Eq, Clone, Copy, Debug, Structural)]
pub enum NotchFrequency {
    Hz50,
    Hz60,
}

/// Rate at which the caller feeds samples to the chain.
#[derive(PartialEq, Eq, Clone, Copy, Debug, Structural)]
pub enum SampleFrequency {
    Hz500,
    Hz1000,
}

impl NotchFrequency {
    /// The frequency in hertz.
    pub open spec fn spec_hz(self) -> int {
        match self {
            NotchFrequency::Hz50 => 50,
            NotchFrequency::Hz60 => 60,
        }
    }

    /// The frequency in hertz.
    pub fn hz(self) -> (r: u32)
        ensures
            r == self.spec_hz(),
    {
        match self {
            NotchFrequency::Hz50 => 50,
            NotchFrequency::Hz60 => 60,
        }
    }
}

impl SampleFrequency {
    /// The frequency in hertz.
    pub open spec fn spec_hz(self) -> int {
        match self {
            SampleFrequency::Hz500 => 500,
            SampleFrequency::Hz1000 => 1000,
        }
    }

    /// Row of this frequency in every coefficient table: 0 for 500 Hz, 1 for
    /// 1000 Hz.
    pub open spec fn spec_row(self) -> int {
        match self {
            SampleFrequency::Hz500 => 0,
            SampleFrequency::Hz1000 => 1,
        }
    }

    /// The frequency in hertz.
    pub fn hz(self) -> (r: u32)
        ensures
            r == self.spec_hz(),
    {
        match self {
            SampleFrequency::Hz500 => 500,
            SampleFrequency::Hz1000 => 1000,
        }
    }

    /// Row of this frequency in every coefficient table.
    pub fn row(self) -> (r: usize)
        ensures
            r == self.spec_row(),
    {
        match self {
            SampleFrequency::Hz500 => 0,
            SampleFrequency::Hz1000 => 1,
        }
    }
}

} // verus!
