//! The filter sections of a chain. A section holds the coefficients of one
//! supported configuration and nothing else: the samples that a filter
//! remembers belong to whoever runs its arithmetic.

use vstd::prelude::*;
use crate::coefficients::highpass_taps;
use crate::coefficients::lowpass_taps;
use crate::coefficients::notch_taps;
use crate::coefficients::taps_of;
use crate::coefficients::NotchTaps;
use crate::coefficients::SectionTaps;
use crate::coefficients::AHF_DENOMINATOR_COEF_50HZ;
use crate::coefficients::AHF_DENOMINATOR_COEF_60HZ;
use crate::coefficients::AHF_NUMERATOR_COEF_50HZ;
use crate::coefficients::AHF_NUMERATOR_COEF_60HZ;
use crate::coefficients::AHF_OUTPUT_GAIN_COEF_50HZ;
use crate::coefficients::AHF_OUTPUT_GAIN_COEF_60HZ;
use crate::coefficients::HPF_DENOMINATOR_COEFFICIENT;
use crate::coefficients::HPF_NUMERATOR_COEFFICIENT;
use crate::coefficients::LPF_DENOMINATOR_COEFFICIENT;
use crate::coefficients::LPF_NUMERATOR_COEFFICIENT;
use crate::frequency::NotchFrequency;
use crate::frequency::SampleFrequency;

verus! {

/// The two conditioning filters that are built from one second-order section.
#[derive(PartialEq, Eq, Clone, Copy, Debug, Structural)]
pub enum FilterType {
    LowPass,
    HighPass,
}

/// The coefficients of a conditioning filter at a sample frequency.
pub open spec fn second_order_taps(
    filter_type: FilterType,
    sample_frequency: SampleFrequency,
) -> SectionTaps {
    match filter_type {
        FilterType::LowPass => lowpass_taps(sample_frequency),
        FilterType::HighPass => highpass_taps(sample_frequency),
    }
}

/// A second-order section: three numerator and three denominator
/// coefficients.
#[derive(Clone, Copy, Debug)]
pub struct Filter2nd {
    num: [i32; 3],
    den: [i32; 3],
}

/// The fourth-order notch filter: two second-order sections packed into six
/// numerator and six denominator coefficients, and one output gain.
#[derive(Clone, Copy, Debug)]
pub struct Filter4th {
    num: [i32; 6],
    den: [i32; 6],
    gain: i32,
}

impl View for Filter2nd {
    type V = SectionTaps;

    closed spec fn view(&self) -> SectionTaps {
        SectionTaps { num: taps_of(self.num), den: taps_of(self.den) }
    }
}

impl View for Filter4th {
    type V = NotchTaps;

    closed spec fn view(&self) -> NotchTaps {
        NotchTaps { num: taps_of(self.num), den: taps_of(self.den), gain: self.gain as int }
    }
}

impl Filter2nd {
    /// The coefficients are those of a conditioning filter at a supported
    /// sample frequency.
    pub open spec fn supported(self) -> bool {
        exists|filter_type: FilterType, sample_frequency: SampleFrequency|
            self@ == #[trigger] second_order_taps(filter_type, sample_frequency)
    }

    #[verifier::type_invariant]
    spec fn holds_a_table_row(self) -> bool {
        self.supported()
    }

    /// The section of the `filter_type` filter for samples that arrive at
    /// `sample_frequency`.
    pub fn new(filter_type: FilterType, sample_frequency: SampleFrequency) -> (r: Self)
        ensures
            r@ == second_order_taps(filter_type, sample_frequency),
            r@.wf(),
    {
        let row: usize = sample_frequency.row();
        let (num, den) = match filter_type {
            FilterType::LowPass => (LPF_NUMERATOR_COEFFICIENT[row], LPF_DENOMINATOR_COEFFICIENT[row]),
            FilterType::HighPass => (
                HPF_NUMERATOR_COEFFICIENT[row],
                HPF_DENOMINATOR_COEFFICIENT[row],
            ),
        };
        proof {
            let taps = second_order_taps(filter_type, sample_frequency);
            assert(taps_of(num) =~= taps.num);
            assert(taps_of(den) =~= taps.den);
        }
        Filter2nd { num, den }
    }

    /// The numerator coefficients, in ten-thousandths.
    pub fn num(&self) -> (r: &[i32; 3])
        ensures
            taps_of(*r) == self@.num,
            self.supported(),
    {
        proof {
            use_type_invariant(self);
        }
        &self.num
    }

    /// The denominator coefficients, in ten-thousandths. The first of them
    /// is `COEFFICIENT_SCALE`.
    pub fn den(&self) -> (r: &[i32; 3])
        ensures
            taps_of(*r) == self@.den,
            self.supported(),
    {
        proof {
            use_type_invariant(self);
        }
        &self.den
    }
}

impl Filter4th {
    /// The coefficients are those of the notch filter at a supported sample
    /// frequency and power-line frequency.
    pub open spec fn supported(self) -> bool {
        exists|sample_frequency: SampleFrequency, hum_frequency: NotchFrequency|
            self@ == #[trigger] notch_taps(sample_frequency, hum_frequency)
    }

    #[verifier::type_invariant]
    spec fn holds_a_table_row(self) -> bool {
        self.supported()
    }

    /// The notch filter that removes `hum_frequency` from samples that arrive
    /// at `sample_frequency`.
    pub fn new(sample_frequency: SampleFrequency, hum_frequency: NotchFrequency) -> (r: Self)
        ensures
            r@ == notch_taps(sample_frequency, hum_frequency),
            r@.wf(),
    {
        let row: usize = sample_frequency.row();
        let (num, den, gain) = match hum_frequency {
            NotchFrequency::Hz50 => (
                AHF_NUMERATOR_COEF_50HZ[row],
                AHF_DENOMINATOR_COEF_50HZ[row],
                AHF_OUTPUT_GAIN_COEF_50HZ[row],
            ),
            NotchFrequency::Hz60 => (
                AHF_NUMERATOR_COEF_60HZ[row],
                AHF_DENOMINATOR_COEF_60HZ[row],
                AHF_OUTPUT_GAIN_COEF_60HZ[row],
            ),
        };
        proof {
            let taps = notch_taps(sample_frequency, hum_frequency);
            assert(taps_of(num) =~= taps.num);
            assert(taps_of(den) =~= taps.den);
        }
        Filter4th { num, den, gain }
    }

    /// The numerator coefficients of the two sections, in ten-thousandths:
    /// places 0 to 2 belong to the first section, 3 to 5 to the second.
    pub fn num(&self) -> (r: &[i32; 6])
        ensures
            taps_of(*r) == self@.num,
            self.supported(),
    {
        proof {
            use_type_invariant(self);
        }
        &self.num
    }

    /// The denominator coefficients of the two sections, in ten-thousandths,
    /// laid out as the numerator is. Places 0 and 3 hold `COEFFICIENT_SCALE`.
    pub fn den(&self) -> (r: &[i32; 6])
        ensures
            taps_of(*r) == self@.den,
            self.supported(),
    {
        proof {
            use_type_invariant(self);
        }
        &self.den
    }

    /// The gain applied to the output of the second section, in
    /// ten-thousandths.
    pub fn gain(&self) -> (r: i32)
        ensures
            r == self@.gain,
            self.supported(),
    {
        proof {
            use_type_invariant(self);
        }
        self.gain
    }
}

/// Every supported second-order section is well formed: three coefficients a
/// side, and a leading denominator coefficient of 1.
pub proof fn lemma_supported_section_is_well_formed(section: Filter2nd)
    requires
        section.supported(),
    ensures
        section@.wf(),
{
    let (filter_type, sample_frequency) = choose|
        filter_type: FilterType,
        sample_frequency: SampleFrequency,
    |
        section@ == #[trigger] second_order_taps(filter_type, sample_frequency);
    assert(second_order_taps(filter_type, sample_frequency).wf());
}

/// Every supported notch filter is well formed: six coefficients a side, and
/// a leading denominator coefficient of 1 in both of its sections.
pub proof fn lemma_supported_notch_is_well_formed(notch: Filter4th)
    requires
        notch.supported(),
    ensures
        notch@.wf(),
{
    let (sample_frequency, hum_frequency) = choose|
        sample_frequency: SampleFrequency,
        hum_frequency: NotchFrequency,
    |
        notch@ == #[trigger] notch_taps(sample_frequency, hum_frequency);
    assert(notch_taps(sample_frequency, hum_frequency).wf());
}

/// Sections with the same coefficients are the same section.
pub proof fn lemma_section_is_its_taps(a: Filter2nd, b: Filter2nd)
    requires
        a@ == b@,
    ensures
        a == b,
{
    assert forall|i: int| 0 <= i < 3 implies a.num[i] == b.num[i] && a.den[i] == b.den[i] by {
        assert(taps_of(a.num)[i] == taps_of(b.num)[i]);
        assert(taps_of(a.den)[i] == taps_of(b.den)[i]);
    }
    assert(a.num =~= b.num);
    assert(a.den =~= b.den);
}

/// Notch filters with the same coefficients and gain are the same filter.
pub proof fn lemma_notch_is_its_taps(a: Filter4th, b: Filter4th)
    requires
        a@ == b@,
    ensures
        a == b,
{
    assert forall|i: int| 0 <= i < 6 implies a.num[i] == b.num[i] && a.den[i] == b.den[i] by {
        assert(taps_of(a.num)[i] == taps_of(b.num)[i]);
        assert(taps_of(a.den)[i] == taps_of(b.den)[i]);
    }
    assert(a.num =~= b.num);
    assert(a.den =~= b.den);
}

} // verus!
