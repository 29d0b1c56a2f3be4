//! The filter chain: which stages are enabled, the section of each stage,
//! what each stage remembers, and the passage of samples through the enabled
//! stages.
//!
//! The chain is generic in the sample type. The arithmetic of a section is a
//! kernel supplied by the caller: a function from the section, what the stage
//! remembers and the sample that reaches the stage, to what the stage
//! remembers next and the sample that leaves it. What the chain decides is
//! stated here for every sample type and every kernel: which kernels run, in
//! which order, on which section and memory, and where their results go.

use vstd::prelude::*;
use crate::coefficients::notch_taps;
use crate::frequency::NotchFrequency;
use crate::frequency::SampleFrequency;
use crate::section::second_order_taps;
use crate::section::Filter2nd;
use crate::section::Filter4th;
use crate::section::FilterType;

verus! {

/// A chain of three stages for one channel, applied in this order: the notch
/// that removes power-line hum, the low-pass filter, the high-pass filter.
/// Each stage is switched on or off when the chain is made and stays so. The
/// notch remembers four samples, each of the other two stages two.
#[derive(Debug)]
pub struct EMGFilters<T> {
    notch_filter_enabled: bool,
    lowpass_filter_enabled: bool,
    highpass_filter_enabled: bool,
    lpf: Filter2nd,
    hpf: Filter2nd,
    ahf: Filter4th,
    lpf_states: [T; 2],
    hpf_states: [T; 2],
    ahf_states: [T; 4],
}

/// What a chain is made of and what it remembers.
pub ghost struct ChainView<T> {
    pub notch_enabled: bool,
    pub lowpass_enabled: bool,
    pub highpass_enabled: bool,
    pub notch: Filter4th,
    pub lowpass: Filter2nd,
    pub highpass: Filter2nd,
    pub notch_states: [T; 4],
    pub lowpass_states: [T; 2],
    pub highpass_states: [T; 2],
}

impl<T> View for EMGFilters<T> {
    type V = ChainView<T>;

    closed spec fn view(&self) -> ChainView<T> {
        ChainView {
            notch_enabled: self.notch_filter_enabled,
            lowpass_enabled: self.lowpass_filter_enabled,
            highpass_enabled: self.highpass_filter_enabled,
            notch: self.ahf,
            lowpass: self.lpf,
            highpass: self.hpf,
            notch_states: self.ahf_states,
            lowpass_states: self.lpf_states,
            highpass_states: self.hpf_states,
        }
    }
}

/// What one stage does with a sample. Where the stage is enabled, its kernel
/// is given the section, the stage's memory and the sample, and gives the
/// memory and the sample that follow. Where it is switched off, the memory
/// stays and the sample passes untouched.
pub open spec fn stage_steps<C, M, T, K: FnOnce(C, M, T) -> (M, T)>(
    enabled: bool,
    kernel: K,
    section: C,
    memory: M,
    input: T,
    memory_after: M,
    output: T,
) -> bool {
    if enabled {
        kernel.ensures((section, memory, input), (memory_after, output))
    } else {
        memory_after == memory && output == input
    }
}

/// The kernel has at most one result for each section, memory and sample.
pub open spec fn single_valued<C, M, T, K: FnOnce(C, M, T) -> (M, T)>(kernel: K) -> bool {
    forall|section: C, memory: M, input: T, a: (M, T), b: (M, T)|
        #![trigger kernel.ensures((section, memory, input), a), kernel.ensures((section, memory, input), b)]
        kernel.ensures((section, memory, input), a) && kernel.ensures((section, memory, input), b)
            ==> a == b
}

/// On this section and memory the kernel answers the sample `input` with
/// `input` itself, and leaves the memory as it is.
pub open spec fn holds_still<C, M, T, K: FnOnce(C, M, T) -> (M, T)>(
    kernel: K,
    section: C,
    memory: M,
    input: T,
) -> bool {
    forall|after: (M, T)| #[trigger]
        kernel.ensures((section, memory, input), after) ==> after == (memory, input)
}

impl<T> ChainView<T> {
    /// The sections are those of the three filters at `sample_frequency`,
    /// with the notch at `notch_frequency`.
    pub open spec fn configured_for(
        self,
        sample_frequency: SampleFrequency,
        notch_frequency: NotchFrequency,
    ) -> bool {
        &&& self.notch@ == notch_taps(sample_frequency, notch_frequency)
        &&& self.lowpass@ == second_order_taps(FilterType::LowPass, sample_frequency)
        &&& self.highpass@ == second_order_taps(FilterType::HighPass, sample_frequency)
    }

    /// Every remembered sample is `zero`.
    pub open spec fn at_rest(self, zero: T) -> bool {
        &&& forall|i: int| 0 <= i < 4 ==> self.notch_states[i] == zero
        &&& forall|i: int| 0 <= i < 2 ==> self.lowpass_states[i] == zero
        &&& forall|i: int| 0 <= i < 2 ==> self.highpass_states[i] == zero
    }

    /// Every stage is switched off.
    pub open spec fn bypassed(self) -> bool {
        !self.notch_enabled && !self.lowpass_enabled && !self.highpass_enabled
    }

    /// The same flags and the same sections as `other`: only what the stages
    /// remember may differ.
    pub open spec fn same_chain(self, other: Self) -> bool {
        &&& self.notch_enabled == other.notch_enabled
        &&& self.lowpass_enabled == other.lowpass_enabled
        &&& self.highpass_enabled == other.highpass_enabled
        &&& self.notch == other.notch
        &&& self.lowpass == other.lowpass
        &&& self.highpass == other.highpass
    }

    /// The notch stage, given `input`, can leave `memory_after` behind and
    /// hand on `output`.
    pub open spec fn notch_steps<N: FnOnce(Filter4th, [T; 4], T) -> ([T; 4], T)>(
        self,
        fourth_order: N,
        input: T,
        memory_after: [T; 4],
        output: T,
    ) -> bool {
        stage_steps(
            self.notch_enabled,
            fourth_order,
            self.notch,
            self.notch_states,
            input,
            memory_after,
            output,
        )
    }

    /// The low-pass stage, given `input`, can leave `memory_after` behind and
    /// hand on `output`.
    pub open spec fn lowpass_steps<S: FnOnce(Filter2nd, [T; 2], T) -> ([T; 2], T)>(
        self,
        second_order: S,
        input: T,
        memory_after: [T; 2],
        output: T,
    ) -> bool {
        stage_steps(
            self.lowpass_enabled,
            second_order,
            self.lowpass,
            self.lowpass_states,
            input,
            memory_after,
            output,
        )
    }

    /// The high-pass stage, given `input`, can leave `memory_after` behind
    /// and hand on `output`.
    pub open spec fn highpass_steps<S: FnOnce(Filter2nd, [T; 2], T) -> ([T; 2], T)>(
        self,
        second_order: S,
        input: T,
        memory_after: [T; 2],
        output: T,
    ) -> bool {
        stage_steps(
            self.highpass_enabled,
            second_order,
            self.highpass,
            self.highpass_states,
            input,
            memory_after,
            output,
        )
    }

    /// `sample` can reach the low-pass stage when `input` enters the chain:
    /// it is what the notch stage hands on.
    pub open spec fn reaches_lowpass<N: FnOnce(Filter4th, [T; 4], T) -> ([T; 4], T)>(
        self,
        fourth_order: N,
        input: T,
        sample: T,
    ) -> bool {
        exists|memory_after: [T; 4]| #[trigger]
            self.notch_steps(fourth_order, input, memory_after, sample)
    }

    /// `sample` can reach the high-pass stage when `input` enters the chain:
    /// it is what the low-pass stage hands on, given what reached it.
    pub open spec fn reaches_highpass<
        N: FnOnce(Filter4th, [T; 4], T) -> ([T; 4], T),
        S: FnOnce(Filter2nd, [T; 2], T) -> ([T; 2], T),
    >(self, fourth_order: N, second_order: S, input: T, sample: T) -> bool {
        exists|after_notch: T, memory_after: [T; 2]|
            #![trigger self.lowpass_steps(second_order, after_notch, memory_after, sample)]
            self.reaches_lowpass(fourth_order, input, after_notch) && self.lowpass_steps(
                second_order,
                after_notch,
                memory_after,
                sample,
            )
    }

    /// One sample through the chain: `input` enters, `output` leaves, and
    /// the chain goes from `self` to `after`. The sample passes the notch,
    /// then the low-pass, then the high-pass stage, and each stage is handed
    /// what the stage before it handed on.
    pub open spec fn steps<
        N: FnOnce(Filter4th, [T; 4], T) -> ([T; 4], T),
        S: FnOnce(Filter2nd, [T; 2], T) -> ([T; 2], T),
    >(self, fourth_order: N, second_order: S, input: T, after: Self, output: T) -> bool {
        &&& after.same_chain(self)
        &&& exists|after_notch: T, after_lowpass: T|
            #![trigger self.notch_steps(fourth_order, input, after.notch_states, after_notch),
                self.lowpass_steps(second_order, after_notch, after.lowpass_states, after_lowpass)]
            {
                &&& self.notch_steps(fourth_order, input, after.notch_states, after_notch)
                &&& self.lowpass_steps(
                    second_order,
                    after_notch,
                    after.lowpass_states,
                    after_lowpass,
                )
                &&& self.highpass_steps(
                    second_order,
                    after_lowpass,
                    after.highpass_states,
                    output,
                )
            }
    }

    /// A run of samples through the chain, one after the other: `inputs`
    /// enter, `outputs` leave in the same order, and the chain goes from
    /// `self` to `end`.
    pub open spec fn runs<
        N: FnOnce(Filter4th, [T; 4], T) -> ([T; 4], T),
        S: FnOnce(Filter2nd, [T; 2], T) -> ([T; 2], T),
    >(self, fourth_order: N, second_order: S, inputs: Seq<T>, outputs: Seq<T>, end: Self) -> bool
        decreases inputs.len(),
    {
        if inputs.len() == 0 {
            outputs.len() == 0 && end == self
        } else {
            &&& outputs.len() == inputs.len()
            &&& exists|next: Self| #[trigger]
                self.steps(fourth_order, second_order, inputs[0], next, outputs[0]) && next.runs(
                    fourth_order,
                    second_order,
                    inputs.drop_first(),
                    outputs.drop_first(),
                    end,
                )
        }
    }
}

impl<T: Copy> EMGFilters<T> {
    /// A chain for samples that arrive at `sample_frequency`, with a notch at
    /// `notch_frequency`, and with each stage enabled as its flag says. The
    /// chain starts from rest: every sample that a stage remembers is `zero`.
    pub fn new(
        sample_frequency: SampleFrequency,
        notch_frequency: NotchFrequency,
        enable_notch_filter: bool,
        enable_lowpass_filter: bool,
        enable_highpass_filter: bool,
        zero: T,
    ) -> (r: Self)
        ensures
            r@.notch_enabled == enable_notch_filter,
            r@.lowpass_enabled == enable_lowpass_filter,
            r@.highpass_enabled == enable_highpass_filter,
            r@.configured_for(sample_frequency, notch_frequency),
            r@.at_rest(zero),
    {
        Self {
            notch_filter_enabled: enable_notch_filter,
            lowpass_filter_enabled: enable_lowpass_filter,
            highpass_filter_enabled: enable_highpass_filter,
            lpf: Filter2nd::new(FilterType::LowPass, sample_frequency),
            hpf: Filter2nd::new(FilterType::HighPass, sample_frequency),
            ahf: Filter4th::new(sample_frequency, notch_frequency),
            lpf_states: [zero; 2],
            hpf_states: [zero; 2],
            ahf_states: [zero; 4],
        }
    }

    /// Passes one sample through the enabled stages: first the notch, then
    /// the low-pass, then the high-pass filter. An enabled stage calls the
    /// kernel of its section once, on the section, on what the stage
    /// remembers and on the sample that reaches it, and keeps the memory that
    /// the kernel gives back. A stage that is switched off calls no kernel,
    /// keeps what it remembers and hands the sample on untouched.
    pub fn update<N, S>(&mut self, input_value: T, fourth_order: N, second_order: S) -> (output: T) where
        N: FnOnce(Filter4th, [T; 4], T) -> ([T; 4], T),
        S: Fn(Filter2nd, [T; 2], T) -> ([T; 2], T),

        requires
            old(self)@.notch_enabled ==> fourth_order.requires(
                (old(self)@.notch, old(self)@.notch_states, input_value),
            ),
            old(self)@.lowpass_enabled ==> forall|sample: T|
                old(self)@.reaches_lowpass(fourth_order, input_value, sample)
                    ==> second_order.requires(
                    (old(self)@.lowpass, old(self)@.lowpass_states, sample),
                ),
            old(self)@.highpass_enabled ==> forall|sample: T|
                old(self)@.reaches_highpass(fourth_order, second_order, input_value, sample)
                    ==> second_order.requires(
                    (old(self)@.highpass, old(self)@.highpass_states, sample),
                ),
        ensures
            old(self)@.steps(fourth_order, second_order, input_value, final(self)@, output),
            old(self)@.bypassed() ==> output == input_value && final(self)@ == old(self)@,
    {
        let mut output = input_value;
        if self.notch_filter_enabled {
            let (states, sample) = fourth_order(self.ahf, self.ahf_states, output);
            self.ahf_states = states;
            output = sample;
        }
        let ghost after_notch = output;
        assert(old(self)@.notch_steps(fourth_order, input_value, self@.notch_states, after_notch));
        assert(old(self)@.reaches_lowpass(fourth_order, input_value, after_notch));
        if self.lowpass_filter_enabled {
            let (states, sample) = second_order(self.lpf, self.lpf_states, output);
            self.lpf_states = states;
            output = sample;
        }
        let ghost after_lowpass = output;
        assert(old(self)@.lowpass_steps(
            second_order,
            after_notch,
            self@.lowpass_states,
            after_lowpass,
        ));
        assert(old(self)@.reaches_highpass(fourth_order, second_order, input_value, after_lowpass));
        if self.highpass_filter_enabled {
            let (states, sample) = second_order(self.hpf, self.hpf_states, output);
            self.hpf_states = states;
            output = sample;
        }
        assert(old(self)@.notch_steps(fourth_order, input_value, self@.notch_states, after_notch));
        assert(old(self)@.lowpass_steps(
            second_order,
            after_notch,
            self@.lowpass_states,
            after_lowpass,
        ));
        output
    }

    /// Whether the notch stage is enabled.
    pub fn notch_filter_enabled(&self) -> (r: bool)
        ensures
            r == self@.notch_enabled,
    {
        self.notch_filter_enabled
    }

    /// Whether the low-pass stage is enabled.
    pub fn lowpass_filter_enabled(&self) -> (r: bool)
        ensures
            r == self@.lowpass_enabled,
    {
        self.lowpass_filter_enabled
    }

    /// Whether the high-pass stage is enabled.
    pub fn highpass_filter_enabled(&self) -> (r: bool)
        ensures
            r == self@.highpass_enabled,
    {
        self.highpass_filter_enabled
    }

    /// The section of the notch stage.
    pub fn ahf(&self) -> (r: &Filter4th)
        ensures
            *r == self@.notch,
    {
        &self.ahf
    }

    /// The section of the low-pass stage.
    pub fn lpf(&self) -> (r: &Filter2nd)
        ensures
            *r == self@.lowpass,
    {
        &self.lpf
    }

    /// The section of the high-pass stage.
    pub fn hpf(&self) -> (r: &Filter2nd)
        ensures
            *r == self@.highpass,
    {
        &self.hpf
    }

    /// What the notch stage remembers.
    pub fn ahf_states(&self) -> (r: &[T; 4])
        ensures
            *r == self@.notch_states,
    {
        &self.ahf_states
    }

    /// What the low-pass stage remembers.
    pub fn lpf_states(&self) -> (r: &[T; 2])
        ensures
            *r == self@.lowpass_states,
    {
        &self.lpf_states
    }

    /// What the high-pass stage remembers.
    pub fn hpf_states(&self) -> (r: &[T; 2])
        ensures
            *r == self@.highpass_states,
    {
        &self.hpf_states
    }
}

} // verus!
