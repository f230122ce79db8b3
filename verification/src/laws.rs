//! Register-level laws of the configuration model, stated once and proved
//! for every configuration value.

use vstd::prelude::*;

verus! {

use crate::config::{
    config_with_fault_count, continuous_mode_bits, eoc_overlay, fault_count_bits, limit_is_valid,
    one_shot_mode_bits, raw_encoding, MODE0, MODE1,
};
use crate::FaultCount;

/// Mode transitions are round trips at the register level: entering
/// continuous mode sets exactly the two mode bits, entering one-shot mode
/// clears exactly them, neither touches any other bit, and going back and
/// forth writes the same value each time a mode is entered again.
pub proof fn lemma_mode_transition_round_trip(bits: u16)
    by (bit_vector)
    ensures
        continuous_mode_bits(bits) & (MODE0 | MODE1) == MODE0 | MODE1,
        one_shot_mode_bits(bits) & (MODE0 | MODE1) == 0,
        continuous_mode_bits(bits) & !(MODE0 | MODE1) == bits & !(MODE0 | MODE1),
        one_shot_mode_bits(bits) & !(MODE0 | MODE1) == bits & !(MODE0 | MODE1),
        continuous_mode_bits(one_shot_mode_bits(continuous_mode_bits(bits)))
            == continuous_mode_bits(bits),
        one_shot_mode_bits(continuous_mode_bits(one_shot_mode_bits(bits)))
            == one_shot_mode_bits(bits),
{
}

/// Setting the fault count replaces the two lowest configuration bits with
/// the field value of the requested count and leaves every other bit
/// untouched.
pub proof fn lemma_fault_count_touches_only_fault_bits(bits: u16, count: FaultCount)
    ensures
        config_with_fault_count(bits, count) & !0b11 == bits & !0b11,
        config_with_fault_count(bits, count) & 0b11 == fault_count_bits(count),
{
    let fc: u16 = fault_count_bits(count);
    assert(((bits & !0b11) | fc) & !0b11 == bits & !0b11 && ((bits & !0b11) | fc) & 0b11 == fc)
        by (bit_vector)
        requires
            fc <= 3,
    ;
}

/// The end-of-conversion overlay touches only the two highest bits of the
/// low-limit register: it forces them high, which no valid limit encoding
/// has, and leaves the remaining fourteen bits unchanged. Disabling the
/// mode writes the shadowed limit back verbatim, so the overlay round
/// trips.
pub proof fn lemma_end_of_conversion_round_trip(exponent: u8, mantissa: u16)
    by (bit_vector)
    requires
        limit_is_valid(exponent, mantissa),
    ensures
        eoc_overlay(raw_encoding(exponent, mantissa)) & 0x3FFF == raw_encoding(exponent, mantissa)
            & 0x3FFF,
        eoc_overlay(raw_encoding(exponent, mantissa)) >> 14 == 0b11,
        raw_encoding(exponent, mantissa) >> 14 != 0b11,
{
}

} // verus!
