use std::cell::RefCell;

use emg_filters::{EMGFilters, Filter2nd, Filter4th, NotchFrequency, SampleFrequency};

fn chain(notch: bool, lowpass: bool, highpass: bool) -> EMGFilters<i64> {
    EMGFilters::new(SampleFrequency::Hz1000, NotchFrequency::Hz50, notch, lowpass, highpass, 0)
}

// Adds one to the sample; counts its calls in the first place of its memory
// and keeps the last sample it was given in the second.
fn add_one(_: Filter4th, memory: [i64; 4], x: i64) -> ([i64; 4], i64) {
    ([memory[0] + 1, x, memory[2], memory[3]], x + 1)
}

// Doubles the sample and adds the sample before it; remembers the last two
// samples it was given, the newer first.
fn double_and_carry(_: Filter2nd, memory: [i64; 2], x: i64) -> ([i64; 2], i64) {
    ([x, memory[0]], 2 * x + memory[0])
}

fn never4(_: Filter4th, _: [u8; 4], _: u8) -> ([u8; 4], u8) {
    panic!("fourth-order kernel called")
}

fn never2(_: Filter2nd, _: [u8; 2], _: u8) -> ([u8; 2], u8) {
    panic!("second-order kernel called")
}

#[test]
fn stages_run_notch_then_lowpass_then_highpass() {
    let mut filters = chain(true, true, true);
    // notch: 5 -> 6; low-pass: 6 -> 12; high-pass: 12 -> 24
    assert_eq!(filters.update(5, add_one, double_and_carry), 24);
    assert_eq!(*filters.ahf_states(), [1, 5, 0, 0]);
    assert_eq!(*filters.lpf_states(), [6, 0]);
    assert_eq!(*filters.hpf_states(), [12, 0]);
    // notch: 5 -> 6; low-pass: 6 -> 12 + 6; high-pass: 18 -> 36 + 12
    assert_eq!(filters.update(5, add_one, double_and_carry), 48);
    assert_eq!(*filters.ahf_states(), [2, 5, 0, 0]);
    assert_eq!(*filters.lpf_states(), [6, 6]);
    assert_eq!(*filters.hpf_states(), [18, 12]);
}

#[test]
fn every_choice_of_stages() {
    let first = |notch, lowpass, highpass| {
        let mut filters = chain(notch, lowpass, highpass);
        let a = filters.update(5, add_one, double_and_carry);
        let b = filters.update(-3, add_one, double_and_carry);
        (a, b)
    };
    assert_eq!(first(false, false, false), (5, -3));
    assert_eq!(first(true, false, false), (6, -2));
    assert_eq!(first(false, true, false), (10, -1));
    assert_eq!(first(false, false, true), (10, -1));
    assert_eq!(first(true, true, false), (12, 2));
    assert_eq!(first(true, false, true), (12, 2));
    assert_eq!(first(false, true, true), (20, 8));
    assert_eq!(first(true, true, true), (24, 16));
}

#[test]
fn a_stage_switched_off_keeps_its_memory() {
    let mut filters = chain(true, false, true);
    filters.update(5, add_one, double_and_carry);
    filters.update(9, add_one, double_and_carry);
    assert_eq!(*filters.ahf_states(), [2, 9, 0, 0]);
    assert_eq!(*filters.lpf_states(), [0, 0]);
    assert_eq!(*filters.hpf_states(), [10, 6]);
}

#[test]
fn bypass_hands_every_sample_back() {
    let mut bypass = chain(false, false, false);
    for x in [i64::MIN, -1023, -1, 0, 1, 7, 1023, i64::MAX] {
        assert_eq!(bypass.update(x, add_one, double_and_carry), x);
        assert_eq!(*bypass.ahf_states(), [0; 4]);
        assert_eq!(*bypass.lpf_states(), [0; 2]);
        assert_eq!(*bypass.hpf_states(), [0; 2]);
    }
}

#[test]
fn a_stage_switched_off_does_not_call_its_kernel() {
    let mut bypass =
        EMGFilters::new(SampleFrequency::Hz500, NotchFrequency::Hz60, false, false, false, 0u8);
    assert_eq!(bypass.update(42, never4, never2), 42);

    let mut lowpass_only =
        EMGFilters::new(SampleFrequency::Hz500, NotchFrequency::Hz60, false, true, false, 0u8);
    assert_eq!(lowpass_only.update(42, never4, |_, memory, x| (memory, x + 1)), 43);

    let mut notch_only =
        EMGFilters::new(SampleFrequency::Hz500, NotchFrequency::Hz60, true, false, false, 0u8);
    assert_eq!(notch_only.update(42, |_, memory, x| (memory, x + 2), never2), 44);
}

#[test]
fn each_enabled_stage_calls_its_kernel_once() {
    let fourth_order_calls = RefCell::new(0);
    let second_order_calls = RefCell::new(0);
    let mut filters = chain(true, true, true);
    let out = filters.update(
        1,
        |_, memory, x| {
            *fourth_order_calls.borrow_mut() += 1;
            (memory, x)
        },
        |_, memory, x| {
            *second_order_calls.borrow_mut() += 1;
            (memory, x)
        },
    );
    assert_eq!(out, 1);
    assert_eq!(fourth_order_calls.into_inner(), 1);
    assert_eq!(second_order_calls.into_inner(), 2);
}

#[test]
fn each_kernel_is_handed_the_section_of_its_stage() {
    let mut filters =
        EMGFilters::new(SampleFrequency::Hz500, NotchFrequency::Hz60, true, true, true, 0u32);
    let seen = RefCell::new(Vec::new());
    let out = filters.update(
        0,
        |section: Filter4th, memory, x| {
            assert_eq!(*section.num(), [9528, -13891, 9528, 8272, -7225, 264]);
            assert_eq!(*section.den(), [10000, -13880, 9066, 10000, -9739, 2371]);
            assert_eq!(section.gain(), 13430);
            (memory, x + 1)
        },
        |section: Filter2nd, memory, x| {
            seen.borrow_mut().push((*section.num(), *section.den(), x));
            (memory, x + 10)
        },
    );
    assert_eq!(out, 21);
    assert_eq!(
        seen.into_inner(),
        vec![
            ([3913, 7827, 3913], [10000, 3695, 1958], 1),
            ([8371, -16742, 8371], [10000, -16475, 7009], 11),
        ]
    );
}

#[test]
fn each_kernel_is_handed_the_memory_of_its_stage() {
    let mut filters = chain(true, true, true);
    filters.update(0, |_, _, x| ([1, 2, 3, 4], x), |section, _, x| {
        if *section.num() == [1311, 2622, 1311] {
            ([10, 20], x)
        } else {
            ([30, 40], x)
        }
    });
    assert_eq!(*filters.ahf_states(), [1, 2, 3, 4]);
    assert_eq!(*filters.lpf_states(), [10, 20]);
    assert_eq!(*filters.hpf_states(), [30, 40]);

    let seen = RefCell::new(Vec::new());
    filters.update(
        0,
        |_, memory, x| {
            assert_eq!(memory, [1, 2, 3, 4]);
            (memory, x)
        },
        |_, memory, x| {
            seen.borrow_mut().push(memory);
            (memory, x)
        },
    );
    assert_eq!(seen.into_inner(), vec![[10, 20], [30, 40]]);
}

#[test]
fn a_sample_that_every_kernel_holds_still_stays() {
    let still4 = |_: Filter4th, memory: [i64; 4], x: i64| {
        if x == 0 {
            (memory, 0)
        } else {
            ([x; 4], x + 1)
        }
    };
    let still2 = |_: Filter2nd, memory: [i64; 2], x: i64| {
        if x == 0 {
            (memory, 0)
        } else {
            ([x; 2], x - 1)
        }
    };
    let mut filters = chain(true, true, true);
    for _ in 0..100 {
        assert_eq!(filters.update(0, still4, still2), 0);
        assert_eq!(*filters.ahf_states(), [0; 4]);
        assert_eq!(*filters.lpf_states(), [0; 2]);
        assert_eq!(*filters.hpf_states(), [0; 2]);
    }
}

#[test]
fn two_chains_made_alike_run_alike() {
    let inputs = [3i64, -8, 0, 1023, 77, -1, 5, 5];
    let mut alone = chain(true, true, true);
    let reference: Vec<i64> =
        inputs.iter().map(|&x| alone.update(x, add_one, double_and_carry)).collect();

    let mut first = chain(true, true, true);
    let mut second = chain(true, true, true);
    let mut first_out = Vec::new();
    let mut second_out = Vec::new();
    for k in 0..inputs.len() {
        first_out.push(first.update(inputs[k], add_one, double_and_carry));
        if k % 2 == 1 {
            second_out.push(second.update(inputs[k - 1], add_one, double_and_carry));
            second_out.push(second.update(inputs[k], add_one, double_and_carry));
        }
    }
    assert_eq!(first_out, reference);
    assert_eq!(second_out, reference);
}
