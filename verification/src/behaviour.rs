//! What holds of every chain, for every sample type and whatever the kernels
//! compute.

use vstd::prelude::*;
use crate::chain::holds_still;
use crate::chain::single_valued;
use crate::chain::ChainView;
use crate::coefficients::notch_taps;
use crate::frequency::NotchFrequency;
use crate::frequency::SampleFrequency;
use crate::section::lemma_notch_is_its_taps;
use crate::section::lemma_section_is_its_taps;
use crate::section::second_order_taps;
use crate::section::Filter2nd;
use crate::section::Filter4th;
use crate::section::FilterType;

verus! {

/// The arguments of a chain's construction determine the chain: two chains
/// with the same flags, made for the same frequencies and at rest on the same
/// `zero`, are equal in every part.
pub proof fn lemma_new_chains_are_equal<T>(
    a: ChainView<T>,
    b: ChainView<T>,
    sample_frequency: SampleFrequency,
    notch_frequency: NotchFrequency,
    zero: T,
)
    requires
        a.notch_enabled == b.notch_enabled,
        a.lowpass_enabled == b.lowpass_enabled,
        a.highpass_enabled == b.highpass_enabled,
        a.configured_for(sample_frequency, notch_frequency),
        b.configured_for(sample_frequency, notch_frequency),
        a.at_rest(zero),
        b.at_rest(zero),
    ensures
        a == b,
{
    lemma_notch_is_its_taps(a.notch, b.notch);
    lemma_section_is_its_taps(a.lowpass, b.lowpass);
    lemma_section_is_its_taps(a.highpass, b.highpass);
    assert(a.notch_states =~= b.notch_states);
    assert(a.lowpass_states =~= b.lowpass_states);
    assert(a.highpass_states =~= b.highpass_states);
}

/// A chain that is fed nothing gives nothing and stays as it is.
pub proof fn lemma_run_of_nothing<T, N, S>(start: ChainView<T>, fourth_order: N, second_order: S) where
    N: FnOnce(Filter4th, [T; 4], T) -> ([T; 4], T),
    S: FnOnce(Filter2nd, [T; 2], T) -> ([T; 2], T),

    ensures
        start.runs(fourth_order, second_order, Seq::empty(), Seq::empty(), start),
{
}

/// A run grows by one sample at its end: where a chain has gone from `start`
/// to `middle` on `inputs`, and then takes one more sample, it has gone from
/// `start` to where that sample leaves it on the longer run.
pub proof fn lemma_run_grows<T, N, S>(
    start: ChainView<T>,
    fourth_order: N,
    second_order: S,
    inputs: Seq<T>,
    outputs: Seq<T>,
    middle: ChainView<T>,
    input: T,
    output: T,
    end: ChainView<T>,
) where
    N: FnOnce(Filter4th, [T; 4], T) -> ([T; 4], T),
    S: FnOnce(Filter2nd, [T; 2], T) -> ([T; 2], T),

    requires
        start.runs(fourth_order, second_order, inputs, outputs, middle),
        middle.steps(fourth_order, second_order, input, end, output),
    ensures
        start.runs(fourth_order, second_order, inputs.push(input), outputs.push(output), end),
    decreases inputs.len(),
{
    let longer = inputs.push(input);
    let longer_outputs = outputs.push(output);
    if inputs.len() == 0 {
        assert(outputs.len() == 0);
        assert(longer.drop_first() =~= Seq::<T>::empty());
        assert(longer_outputs.drop_first() =~= Seq::<T>::empty());
        assert(end.runs(
            fourth_order,
            second_order,
            longer.drop_first(),
            longer_outputs.drop_first(),
            end,
        ));
        assert(start.steps(fourth_order, second_order, longer[0], end, longer_outputs[0]));
    } else {
        let next = choose|next: ChainView<T>| #[trigger]
            start.steps(fourth_order, second_order, inputs[0], next, outputs[0]) && next.runs(
                fourth_order,
                second_order,
                inputs.drop_first(),
                outputs.drop_first(),
                middle,
            );
        lemma_run_grows(
            next,
            fourth_order,
            second_order,
            inputs.drop_first(),
            outputs.drop_first(),
            middle,
            input,
            output,
            end,
        );
        assert(longer.drop_first() =~= inputs.drop_first().push(input));
        assert(longer_outputs.drop_first() =~= outputs.drop_first().push(output));
        assert(start.steps(fourth_order, second_order, longer[0], next, longer_outputs[0]));
    }
}

/// The chain adds no choice of its own to one sample: with kernels that have
/// one result for each section, memory and sample, an input has one output
/// and leaves the chain in one state.
pub proof fn lemma_step_is_determined<T, N, S>(
    start: ChainView<T>,
    fourth_order: N,
    second_order: S,
    input: T,
    first_after: ChainView<T>,
    first_output: T,
    second_after: ChainView<T>,
    second_output: T,
) where
    N: FnOnce(Filter4th, [T; 4], T) -> ([T; 4], T),
    S: FnOnce(Filter2nd, [T; 2], T) -> ([T; 2], T),

    requires
        single_valued(fourth_order),
        single_valued(second_order),
        start.steps(fourth_order, second_order, input, first_after, first_output),
        start.steps(fourth_order, second_order, input, second_after, second_output),
    ensures
        first_after == second_after,
        first_output == second_output,
{
}

/// Determinism: with kernels that have one result for each section, memory
/// and sample, a chain that starts from a given state and is fed a given run
/// of samples gives one run of outputs and ends in one state.
pub proof fn lemma_run_is_determined<T, N, S>(
    start: ChainView<T>,
    fourth_order: N,
    second_order: S,
    inputs: Seq<T>,
    first_outputs: Seq<T>,
    first_end: ChainView<T>,
    second_outputs: Seq<T>,
    second_end: ChainView<T>,
) where
    N: FnOnce(Filter4th, [T; 4], T) -> ([T; 4], T),
    S: FnOnce(Filter2nd, [T; 2], T) -> ([T; 2], T),

    requires
        single_valued(fourth_order),
        single_valued(second_order),
        start.runs(fourth_order, second_order, inputs, first_outputs, first_end),
        start.runs(fourth_order, second_order, inputs, second_outputs, second_end),
    ensures
        first_outputs == second_outputs,
        first_end == second_end,
    decreases inputs.len(),
{
    if inputs.len() == 0 {
        assert(first_outputs =~= second_outputs);
    } else {
        let first_next = choose|next: ChainView<T>| #[trigger]
            start.steps(fourth_order, second_order, inputs[0], next, first_outputs[0])
                && next.runs(
                fourth_order,
                second_order,
                inputs.drop_first(),
                first_outputs.drop_first(),
                first_end,
            );
        let second_next = choose|next: ChainView<T>| #[trigger]
            start.steps(fourth_order, second_order, inputs[0], next, second_outputs[0])
                && next.runs(
                fourth_order,
                second_order,
                inputs.drop_first(),
                second_outputs.drop_first(),
                second_end,
            );
        lemma_step_is_determined(
            start,
            fourth_order,
            second_order,
            inputs[0],
            first_next,
            first_outputs[0],
            second_next,
            second_outputs[0],
        );
        lemma_run_is_determined(
            first_next,
            fourth_order,
            second_order,
            inputs.drop_first(),
            first_outputs.drop_first(),
            first_end,
            second_outputs.drop_first(),
            second_end,
        );
        assert forall|i: int| 0 <= i < first_outputs.len() implies first_outputs[i]
            == second_outputs[i] by {
            if i > 0 {
                assert(first_outputs[i] == first_outputs.drop_first()[i - 1]);
                assert(second_outputs[i] == second_outputs.drop_first()[i - 1]);
            }
        }
        assert(first_outputs =~= second_outputs);
    }
}

/// No chain borrows from another: two chains made with the same arguments
/// and fed the same run of samples give the same run of outputs, with
/// kernels that have one result for each section, memory and sample. Each
/// run goes from the chain's own state alone, so how the calls on the two
/// chains follow one another makes no difference.
pub proof fn lemma_chains_made_alike_run_alike<T, N, S>(
    a: ChainView<T>,
    b: ChainView<T>,
    sample_frequency: SampleFrequency,
    notch_frequency: NotchFrequency,
    zero: T,
    fourth_order: N,
    second_order: S,
    inputs: Seq<T>,
    a_outputs: Seq<T>,
    a_end: ChainView<T>,
    b_outputs: Seq<T>,
    b_end: ChainView<T>,
) where
    N: FnOnce(Filter4th, [T; 4], T) -> ([T; 4], T),
    S: FnOnce(Filter2nd, [T; 2], T) -> ([T; 2], T),

    requires
        a.notch_enabled == b.notch_enabled,
        a.lowpass_enabled == b.lowpass_enabled,
        a.highpass_enabled == b.highpass_enabled,
        a.configured_for(sample_frequency, notch_frequency),
        b.configured_for(sample_frequency, notch_frequency),
        a.at_rest(zero),
        b.at_rest(zero),
        single_valued(fourth_order),
        single_valued(second_order),
        a.runs(fourth_order, second_order, inputs, a_outputs, a_end),
        b.runs(fourth_order, second_order, inputs, b_outputs, b_end),
    ensures
        a_outputs == b_outputs,
        a_end == b_end,
{
    lemma_new_chains_are_equal(a, b, sample_frequency, notch_frequency, zero);
    lemma_run_is_determined(
        a,
        fourth_order,
        second_order,
        inputs,
        a_outputs,
        a_end,
        b_outputs,
        b_end,
    );
}

/// Steady state: where the kernel of every enabled stage answers the sample
/// `still` with `still` and leaves the stage's memory as it is, a chain fed
/// `still` any number of times gives `still` every time and does not change.
pub proof fn lemma_steady_state<T, N, S>(
    start: ChainView<T>,
    fourth_order: N,
    second_order: S,
    still: T,
    inputs: Seq<T>,
    outputs: Seq<T>,
    end: ChainView<T>,
) where
    N: FnOnce(Filter4th, [T; 4], T) -> ([T; 4], T),
    S: FnOnce(Filter2nd, [T; 2], T) -> ([T; 2], T),

    requires
        start.notch_enabled ==> holds_still(
            fourth_order,
            start.notch,
            start.notch_states,
            still,
        ),
        start.lowpass_enabled ==> holds_still(
            second_order,
            start.lowpass,
            start.lowpass_states,
            still,
        ),
        start.highpass_enabled ==> holds_still(
            second_order,
            start.highpass,
            start.highpass_states,
            still,
        ),
        forall|i: int| 0 <= i < inputs.len() ==> inputs[i] == still,
        start.runs(fourth_order, second_order, inputs, outputs, end),
    ensures
        outputs.len() == inputs.len(),
        forall|i: int| 0 <= i < outputs.len() ==> outputs[i] == still,
        end == start,
    decreases inputs.len(),
{
    if inputs.len() > 0 {
        let next = choose|next: ChainView<T>| #[trigger]
            start.steps(fourth_order, second_order, inputs[0], next, outputs[0]) && next.runs(
                fourth_order,
                second_order,
                inputs.drop_first(),
                outputs.drop_first(),
                end,
            );
        assert(next.notch_states == start.notch_states);
        assert(next.lowpass_states == start.lowpass_states);
        assert(next.highpass_states == start.highpass_states);
        assert(next == start);
        assert(outputs[0] == still);
        lemma_steady_state(
            start,
            fourth_order,
            second_order,
            still,
            inputs.drop_first(),
            outputs.drop_first(),
            end,
        );
        assert forall|i: int| 0 <= i < outputs.len() implies outputs[i] == still by {
            if i > 0 {
                assert(outputs[i] == outputs.drop_first()[i - 1]);
            }
        }
    }
}

/// Bypass: a chain with every stage switched off hands every sample back as
/// it came, in the order it came, and does not change.
pub proof fn lemma_bypass_is_transparent<T, N, S>(
    start: ChainView<T>,
    fourth_order: N,
    second_order: S,
    inputs: Seq<T>,
    outputs: Seq<T>,
    end: ChainView<T>,
) where
    N: FnOnce(Filter4th, [T; 4], T) -> ([T; 4], T),
    S: FnOnce(Filter2nd, [T; 2], T) -> ([T; 2], T),

    requires
        start.bypassed(),
        start.runs(fourth_order, second_order, inputs, outputs, end),
    ensures
        outputs == inputs,
        end == start,
    decreases inputs.len(),
{
    if inputs.len() == 0 {
        assert(outputs =~= inputs);
    } else {
        let next = choose|next: ChainView<T>| #[trigger]
            start.steps(fourth_order, second_order, inputs[0], next, outputs[0]) && next.runs(
                fourth_order,
                second_order,
                inputs.drop_first(),
                outputs.drop_first(),
                end,
            );
        assert(next == start);
        lemma_bypass_is_transparent(
            start,
            fourth_order,
            second_order,
            inputs.drop_first(),
            outputs.drop_first(),
            end,
        );
        assert forall|i: int| 0 <= i < outputs.len() implies outputs[i] == inputs[i] by {
            if i > 0 {
                assert(outputs[i] == outputs.drop_first()[i - 1]);
                assert(inputs[i] == inputs.drop_first()[i - 1]);
            }
        }
        assert(outputs =~= inputs);
    }
}

/// The notch stage alone: a chain with only the notch enabled does to a
/// sample what the fourth-order kernel does on the notch filter made on its
/// own for the same frequencies, and changes nothing but the notch's memory.
pub proof fn lemma_notch_alone<T, N, S>(
    chain: ChainView<T>,
    sample_frequency: SampleFrequency,
    notch_frequency: NotchFrequency,
    alone: Filter4th,
    fourth_order: N,
    second_order: S,
    input: T,
    after: ChainView<T>,
    output: T,
) where
    N: FnOnce(Filter4th, [T; 4], T) -> ([T; 4], T),
    S: FnOnce(Filter2nd, [T; 2], T) -> ([T; 2], T),

    requires
        chain.notch_enabled && !chain.lowpass_enabled && !chain.highpass_enabled,
        chain.configured_for(sample_frequency, notch_frequency),
        alone@ == notch_taps(sample_frequency, notch_frequency),
    ensures
        chain.steps(fourth_order, second_order, input, after, output) <==> {
            &&& fourth_order.ensures(
                (alone, chain.notch_states, input),
                (after.notch_states, output),
            )
            &&& after == ChainView { notch_states: after.notch_states, ..chain }
        },
{
    lemma_notch_is_its_taps(chain.notch, alone);
    if fourth_order.ensures((alone, chain.notch_states, input), (after.notch_states, output))
        && after == (ChainView { notch_states: after.notch_states, ..chain }) {
        assert(chain.notch_steps(fourth_order, input, after.notch_states, output));
        assert(chain.lowpass_steps(second_order, output, after.lowpass_states, output));
    }
}

/// The low-pass stage alone: a chain with only the low-pass filter enabled
/// does to a sample what the second-order kernel does on the low-pass
/// section made on its own for the same sample frequency, and changes
/// nothing but the low-pass filter's memory.
pub proof fn lemma_lowpass_alone<T, N, S>(
    chain: ChainView<T>,
    sample_frequency: SampleFrequency,
    notch_frequency: NotchFrequency,
    alone: Filter2nd,
    fourth_order: N,
    second_order: S,
    input: T,
    after: ChainView<T>,
    output: T,
) where
    N: FnOnce(Filter4th, [T; 4], T) -> ([T; 4], T),
    S: FnOnce(Filter2nd, [T; 2], T) -> ([T; 2], T),

    requires
        !chain.notch_enabled && chain.lowpass_enabled && !chain.highpass_enabled,
        chain.configured_for(sample_frequency, notch_frequency),
        alone@ == second_order_taps(FilterType::LowPass, sample_frequency),
    ensures
        chain.steps(fourth_order, second_order, input, after, output) <==> {
            &&& second_order.ensures(
                (alone, chain.lowpass_states, input),
                (after.lowpass_states, output),
            )
            &&& after == ChainView { lowpass_states: after.lowpass_states, ..chain }
        },
{
    lemma_section_is_its_taps(chain.lowpass, alone);
    if second_order.ensures((alone, chain.lowpass_states, input), (after.lowpass_states, output))
        && after == (ChainView { lowpass_states: after.lowpass_states, ..chain }) {
        assert(chain.notch_steps(fourth_order, input, after.notch_states, input));
        assert(chain.lowpass_steps(second_order, input, after.lowpass_states, output));
    }
}

/// The high-pass stage alone: a chain with only the high-pass filter enabled
/// does to a sample what the second-order kernel does on the high-pass
/// section made on its own for the same sample frequency, and changes
/// nothing but the high-pass filter's memory.
pub proof fn lemma_highpass_alone<T, N, S>(
    chain: ChainView<T>,
    sample_frequency: SampleFrequency,
    notch_frequency: NotchFrequency,
    alone: Filter2nd,
    fourth_order: N,
    second_order: S,
    input: T,
    after: ChainView<T>,
    output: T,
) where
    N: FnOnce(Filter4th, [T; 4], T) -> ([T; 4], T),
    S: FnOnce(Filter2nd, [T; 2], T) -> ([T; 2], T),

    requires
        !chain.notch_enabled && !chain.lowpass_enabled && chain.highpass_enabled,
        chain.configured_for(sample_frequency, notch_frequency),
        alone@ == second_order_taps(FilterType::HighPass, sample_frequency),
    ensures
        chain.steps(fourth_order, second_order, input, after, output) <==> {
            &&& second_order.ensures(
                (alone, chain.highpass_states, input),
                (after.highpass_states, output),
            )
            &&& after == ChainView { highpass_states: after.highpass_states, ..chain }
        },
{
    lemma_section_is_its_taps(chain.highpass, alone);
    if second_order.ensures((alone, chain.highpass_states, input), (after.highpass_states, output))
        && after == (ChainView { highpass_states: after.highpass_states, ..chain }) {
        assert(chain.notch_steps(fourth_order, input, after.notch_states, input));
        assert(chain.lowpass_steps(second_order, input, after.lowpass_states, input));
    }
}

} // verus!
