use vstd::prelude::*;

verus! {

/// The length counter values that the top five bits of a length write select.
pub open spec fn length_counter_table(index: u8) -> u8 {
    match index {
        0 => 10,
        1 => 254,
        2 => 20,
        3 => 2,
        4 => 40,
        5 => 4,
        6 => 80,
        7 => 6,
        8 => 160,
        9 => 8,
        10 => 60,
        11 => 10,
        12 => 14,
        13 => 12,
        14 => 26,
        15 => 14,
        16 => 12,
        17 => 16,
        18 => 24,
        19 => 18,
        20 => 48,
        21 => 20,
        22 => 96,
        23 => 22,
        24 => 192,
        25 => 24,
        26 => 72,
        27 => 26,
        28 => 16,
        29 => 28,
        30 => 32,
        _ => 30,
    }
}

pub fn length_counter_load(index: u8) -> (r: u8)
    requires
        index < 32,
    ensures
        r == length_counter_table(index),
{
    match index {
        0 => 10,
        1 => 254,
        2 => 20,
        3 => 2,
        4 => 40,
        5 => 4,
        6 => 80,
        7 => 6,
        8 => 160,
        9 => 8,
        10 => 60,
        11 => 10,
        12 => 14,
        13 => 12,
        14 => 26,
        15 => 14,
        16 => 12,
        17 => 16,
        18 => 24,
        19 => 18,
        20 => 48,
        21 => 20,
        22 => 96,
        23 => 22,
        24 => 192,
        25 => 24,
        26 => 72,
        27 => 26,
        28 => 16,
        29 => 28,
        30 => 32,
        _ => 30,
    }
}

/// The four pulse waveforms (12.5%, 25%, 50%, 25% negated), played from bit 7 down.
pub open spec fn duty_cycle_waveform_table(index: u8) -> u8 {
    match index {
        0 => 64,
        1 => 96,
        2 => 120,
        _ => 159,
    }
}

pub fn duty_cycle_waveform(index: u8) -> (r: u8)
    requires
        index < 4,
    ensures
        r == duty_cycle_waveform_table(index),
{
    match index {
        0 => 64,
        1 => 96,
        2 => 120,
        _ => 159,
    }
}

/// The noise channel periods that the low four bits of a period write select.
pub open spec fn noise_period_table(index: u8) -> u16 {
    match index {
        0 => 4,
        1 => 8,
        2 => 16,
        3 => 32,
        4 => 64,
        5 => 96,
        6 => 128,
        7 => 160,
        8 => 202,
        9 => 254,
        10 => 380,
        11 => 508,
        12 => 762,
        13 => 1016,
        14 => 2034,
        _ => 4068,
    }
}

pub fn noise_period(index: u8) -> (r: u16)
    requires
        index < 16,
    ensures
        r == noise_period_table(index),
{
    match index {
        0 => 4,
        1 => 8,
        2 => 16,
        3 => 32,
        4 => 64,
        5 => 96,
        6 => 128,
        7 => 160,
        8 => 202,
        9 => 254,
        10 => 380,
        11 => 508,
        12 => 762,
        13 => 1016,
        14 => 2034,
        _ => 4068,
    }
}

/// The delta modulation rates that the low four bits of a rate write select.
pub open spec fn dmc_rate_table(index: u8) -> u16 {
    match index {
        0 => 428,
        1 => 380,
        2 => 340,
        3 => 320,
        4 => 286,
        5 => 254,
        6 => 226,
        7 => 214,
        8 => 190,
        9 => 160,
        10 => 142,
        11 => 128,
        12 => 106,
        13 => 84,
        14 => 72,
        _ => 54,
    }
}

pub fn dmc_rate(index: u8) -> (r: u16)
    requires
        index < 16,
    ensures
        r == dmc_rate_table(index),
{
    match index {
        0 => 428,
        1 => 380,
        2 => 340,
        3 => 320,
        4 => 286,
        5 => 254,
        6 => 226,
        7 => 214,
        8 => 190,
        9 => 160,
        10 => 142,
        11 => 128,
        12 => 106,
        13 => 84,
        14 => 72,
        _ => 54,
    }
}

/// The 32-step triangle waveform.
pub open spec fn triangle_sequence(index: usize) -> u8 {
    match index {
        0 => 15,
        1 => 14,
        2 => 13,
        3 => 12,
        4 => 11,
        5 => 10,
        6 => 9,
        7 => 8,
        8 => 7,
        9 => 6,
        10 => 5,
        11 => 4,
        12 => 3,
        13 => 2,
        14 => 1,
        15 => 0,
        16 => 0,
        17 => 1,
        18 => 2,
        19 => 3,
        20 => 4,
        21 => 5,
        22 => 6,
        23 => 7,
        24 => 8,
        25 => 9,
        26 => 10,
        27 => 11,
        28 => 12,
        29 => 13,
        30 => 14,
        _ => 15,
    }
}

pub fn triangle_step(index: usize) -> (r: u8)
    requires
        index < 32,
    ensures
        r == triangle_sequence(index),
        r <= 15,
{
    match index {
        0 => 15,
        1 => 14,
        2 => 13,
        3 => 12,
        4 => 11,
        5 => 10,
        6 => 9,
        7 => 8,
        8 => 7,
        9 => 6,
        10 => 5,
        11 => 4,
        12 => 3,
        13 => 2,
        14 => 1,
        15 => 0,
        16 => 0,
        17 => 1,
        18 => 2,
        19 => 3,
        20 => 4,
        21 => 5,
        22 => 6,
        23 => 7,
        24 => 8,
        25 => 9,
        26 => 10,
        27 => 11,
        28 => 12,
        29 => 13,
        30 => 14,
        _ => 15,
    }
}

} // verus!
