//! The coefficient tables.
//!
//! A coefficient is stored as an integer number of ten-thousandths: the
//! stored value 3913 stands for 0.3913, and `COEFFICIENT_SCALE` for 1. Every
//! table has one row per sample frequency, 500 Hz first.

use vstd::prelude::*;
use crate::frequency::NotchFrequency;
use crate::frequency::SampleFrequency;

verus! {

/// The stored value that stands for a coefficient of 1.
pub const COEFFICIENT_SCALE: i32 = 10000;

pub const LPF_NUMERATOR_COEFFICIENT: [[i32; 3]; 2] = [[3913, 7827, 3913], [1311, 2622, 1311]];

pub const LPF_DENOMINATOR_COEFFICIENT: [[i32; 3]; 2] = [[10000, 3695, 1958], [10000, -7478, 2722]];

pub const HPF_NUMERATOR_COEFFICIENT: [[i32; 3]; 2] = [[8371, -16742, 8371], [9150, -18299, 9150]];

pub const HPF_DENOMINATOR_COEFFICIENT: [[i32; 3]; 2] = [
    [10000, -16475, 7009],
    [10000, -18227, 8372],
];

pub const AHF_NUMERATOR_COEF_50HZ: [[i32; 6]; 2] = [
    [9522, -15407, 9522, 8158, -8045, 855],
    [5869, -11146, 5869, 10499, -20000, 10499],
];

pub const AHF_DENOMINATOR_COEF_50HZ: [[i32; 6]; 2] = [
    [10000, -15395, 9056, 10000, -11187, 3129],
    [10000, -18844, 9893, 10000, -18991, 9892],
];

pub const AHF_OUTPUT_GAIN_COEF_50HZ: [i32; 2] = [13422, 14399];

pub const AHF_NUMERATOR_COEF_60HZ: [[i32; 6]; 2] = [
    [9528, -13891, 9528, 8272, -7225, 264],
    [5824, -10810, 5824, 10736, -20000, 10736],
];

pub const AHF_DENOMINATOR_COEF_60HZ: [[i32; 6]; 2] = [
    [10000, -13880, 9066, 10000, -9739, 2371],
    [10000, -18407, 9894, 10000, -18584, 9891],
];

pub const AHF_OUTPUT_GAIN_COEF_60HZ: [i32; 2] = [13430, 14206];

/// Coefficients of a second-order section, in ten-thousandths.
pub ghost struct SectionTaps {
    pub num: Seq<int>,
    pub den: Seq<int>,
}

/// Coefficients of the notch filter, in ten-thousandths: two second-order
/// sections packed one after the other, and the gain applied to the output of
/// the second.
pub ghost struct NotchTaps {
    pub num: Seq<int>,
    pub den: Seq<int>,
    pub gain: int,
}

impl SectionTaps {
    /// Three taps on each side, and a leading denominator coefficient of 1.
    pub open spec fn wf(self) -> bool {
        &&& self.num.len() == 3
        &&& self.den.len() == 3
        &&& self.den[0] == COEFFICIENT_SCALE
    }
}

impl NotchTaps {
    /// Six taps on each side, and a leading denominator coefficient of 1 in
    /// each of the two sections.
    pub open spec fn wf(self) -> bool {
        &&& self.num.len() == 6
        &&& self.den.len() == 6
        &&& self.den[0] == COEFFICIENT_SCALE
        &&& self.den[3] == COEFFICIENT_SCALE
    }
}

/// The low-pass section for a sample frequency.
pub open spec fn lowpass_taps(sample_frequency: SampleFrequency) -> SectionTaps {
    match sample_frequency {
        SampleFrequency::Hz500 => SectionTaps {
            num: seq![3913, 7827, 3913],
            den: seq![10000, 3695, 1958],
        },
        SampleFrequency::Hz1000 => SectionTaps {
            num: seq![1311, 2622, 1311],
            den: seq![10000, -7478, 2722],
        },
    }
}

/// The high-pass section for a sample frequency.
pub open spec fn highpass_taps(sample_frequency: SampleFrequency) -> SectionTaps {
    match sample_frequency {
        SampleFrequency::Hz500 => SectionTaps {
            num: seq![8371, -16742, 8371],
            den: seq![10000, -16475, 7009],
        },
        SampleFrequency::Hz1000 => SectionTaps {
            num: seq![9150, -18299, 9150],
            den: seq![10000, -18227, 8372],
        },
    }
}

/// The notch filter for a sample frequency and a power-line frequency.
pub open spec fn notch_taps(
    sample_frequency: SampleFrequency,
    hum_frequency: NotchFrequency,
) -> NotchTaps {
    match (hum_frequency, sample_frequency) {
        (NotchFrequency::Hz50, SampleFrequency::Hz500) => NotchTaps {
            num: seq![9522, -15407, 9522, 8158, -8045, 855],
            den: seq![10000, -15395, 9056, 10000, -11187, 3129],
            gain: 13422,
        },
        (NotchFrequency::Hz50, SampleFrequency::Hz1000) => NotchTaps {
            num: seq![5869, -11146, 5869, 10499, -20000, 10499],
            den: seq![10000, -18844, 9893, 10000, -18991, 9892],
            gain: 14399,
        },
        (NotchFrequency::Hz60, SampleFrequency::Hz500) => NotchTaps {
            num: seq![9528, -13891, 9528, 8272, -7225, 264],
            den: seq![10000, -13880, 9066, 10000, -9739, 2371],
            gain: 13430,
        },
        (NotchFrequency::Hz60, SampleFrequency::Hz1000) => NotchTaps {
            num: seq![5824, -10810, 5824, 10736, -20000, 10736],
            den: seq![10000, -18407, 9894, 10000, -18584, 9891],
            gain: 14206,
        },
    }
}

/// The stored coefficients as mathematical integers.
pub open spec fn taps_of<const N: usize>(stored: [i32; N]) -> Seq<int> {
    Seq::new(N as nat, |i: int| stored[i] as int)
}

} // verus!
