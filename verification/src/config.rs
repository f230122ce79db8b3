//! Register map, configuration bit layout, and the pure functions that
//! derive a new configuration value from a semantic setting.

use vstd::prelude::*;

verus! {

use crate::{ComparisonMode, FaultCount, IntegrationTime, InterruptPinPolarity, LuxRange, Status};

/// Result register address.
pub const REG_RESULT: u8 = 0x00;

/// Configuration register address.
pub const REG_CONFIG: u8 = 0x01;

/// Low-limit register address.
pub const REG_LOW_LIMIT: u8 = 0x02;

/// High-limit register address.
pub const REG_HIGH_LIMIT: u8 = 0x03;

/// Manufacturer ID register address.
pub const REG_MANUFACTURER_ID: u8 = 0x7E;

/// Device ID register address.
pub const REG_DEVICE_ID: u8 = 0x7F;

/// Conversion (integration) time bit: 0 is 100 ms, 1 is 800 ms.
pub const CT: u16 = 1 << 11;

/// High mode bit; set together with [`MODE0`] for continuous conversions.
pub const MODE1: u16 = 1 << 10;

/// Low mode bit; set alone to request a single conversion.
pub const MODE0: u16 = 1 << 9;

/// Overflow flag (read-only).
pub const OVF: u16 = 1 << 8;

/// Conversion-ready flag (read-only).
pub const CRF: u16 = 1 << 7;

/// Flag-high: the result exceeded the high limit (read-only).
pub const FH: u16 = 1 << 6;

/// Flag-low: the result fell below the low limit (read-only).
pub const FL: u16 = 1 << 5;

/// Latch mode bit: latched window comparison when set.
pub const L: u16 = 1 << 4;

/// Interrupt pin polarity bit: active high when set.
pub const POL: u16 = 1 << 3;

/// Exponent masking bit.
pub const ME: u16 = 1 << 2;

/// Power-on-reset value of the configuration register.
pub const CONFIG_POR_DEFAULT: u16 = 0xC810;

/// The in-memory mirror of the configuration register.
#[derive(Debug, Clone, Copy, PartialEq)]
pub(crate) struct Config {
    pub(crate) bits: u16,
}

impl Config {
    /// The power-on-reset configuration the device starts with.
    pub(crate) fn power_on_reset() -> (c: Self)
        ensures
            c.bits == CONFIG_POR_DEFAULT,
    {
        Config { bits: CONFIG_POR_DEFAULT }
    }

    /// The configuration with the bits of `mask` set.
    pub(crate) fn with_high(self, mask: u16) -> (c: Self)
        ensures
            c.bits == with_bits_high(self.bits, mask),
    {
        Config { bits: self.bits | mask }
    }

    /// The configuration with the bits of `mask` cleared.
    pub(crate) fn with_low(self, mask: u16) -> (c: Self)
        ensures
            c.bits == with_bits_low(self.bits, mask),
    {
        Config { bits: self.bits & !mask }
    }
}

/// `bits` with the bits of `mask` set.
pub open spec fn with_bits_high(bits: u16, mask: u16) -> u16 {
    bits | mask
}

/// `bits` with the bits of `mask` cleared.
pub open spec fn with_bits_low(bits: u16, mask: u16) -> u16 {
    bits & !mask
}

/// The two-bit field value selecting a fault count.
pub open spec fn fault_count_bits(count: FaultCount) -> u16 {
    match count {
        FaultCount::One => 0b00,
        FaultCount::Two => 0b01,
        FaultCount::Four => 0b10,
        FaultCount::Eight => 0b11,
    }
}

/// `bits` with its fault-count field replaced according to `count`.
pub open spec fn config_with_fault_count(bits: u16, count: FaultCount) -> u16 {
    (bits & !0b11) | fault_count_bits(count)
}

/// Whether a requested lux range is accepted: manual exponents stop at 11.
pub open spec fn lux_range_is_valid(range: LuxRange) -> bool {
    match range {
        LuxRange::Auto => true,
        LuxRange::Manual(rn) => rn < 0b1100,
    }
}

/// The four-bit range code written for a valid range request; automatic
/// selection uses the reserved code 0b1100.
pub open spec fn lux_range_code(range: LuxRange) -> u16 {
    match range {
        LuxRange::Auto => 0b1100,
        LuxRange::Manual(rn) => rn as u16,
    }
}

/// `bits` with its top four bits replaced by the range code of `range`.
pub open spec fn config_with_lux_range(bits: u16, range: LuxRange) -> u16 {
    (bits & 0x0FFF) | (lux_range_code(range) << 12)
}

/// `bits` with the conversion-time bit set for 800 ms or cleared for 100 ms.
pub open spec fn config_with_integration_time(bits: u16, time: IntegrationTime) -> u16 {
    match time {
        IntegrationTime::Ms100 => with_bits_low(bits, CT),
        IntegrationTime::Ms800 => with_bits_high(bits, CT),
    }
}

/// `bits` with the polarity bit set for active-high or cleared for
/// active-low.
pub open spec fn config_with_polarity(bits: u16, polarity: InterruptPinPolarity) -> u16 {
    match polarity {
        InterruptPinPolarity::Low => with_bits_low(bits, POL),
        InterruptPinPolarity::High => with_bits_high(bits, POL),
    }
}

/// `bits` with the exponent-masking bit set or cleared.
pub open spec fn config_with_exponent_masking(bits: u16, enabled: bool) -> u16 {
    if enabled {
        with_bits_high(bits, ME)
    } else {
        with_bits_low(bits, ME)
    }
}

/// `bits` with the latch bit set for latched-window comparison or cleared
/// for transparent hysteresis.
pub open spec fn config_with_comparison_mode(bits: u16, comparison: ComparisonMode) -> u16 {
    match comparison {
        ComparisonMode::LatchedWindow => with_bits_high(bits, L),
        ComparisonMode::TransparentHysteresis => with_bits_low(bits, L),
    }
}

/// `bits` with both mode bits set: continuous conversions.
pub open spec fn continuous_mode_bits(bits: u16) -> u16 {
    with_bits_high(bits, MODE0 | MODE1)
}

/// `bits` with both mode bits cleared: shutdown until requested.
pub open spec fn one_shot_mode_bits(bits: u16) -> u16 {
    with_bits_low(bits, MODE0 | MODE1)
}

/// `bits` with the low mode bit set: request a single conversion.
pub open spec fn one_shot_trigger_bits(bits: u16) -> u16 {
    with_bits_high(bits, MODE0)
}

/// Whether an (exponent, mantissa) pair fits the limit registers: the
/// exponent in four bits up to 11, the mantissa in twelve bits.
pub open spec fn limit_is_valid(exponent: u8, mantissa: u16) -> bool {
    exponent <= 0b1011 && mantissa <= 0xFFF
}

/// The device's exponent/mantissa register layout,
/// `exponent << 12 | mantissa`; the result and limit registers share it.
pub open spec fn raw_encoding(exponent: u8, mantissa: u16) -> u16 {
    ((exponent as u16) << 12) | mantissa
}

/// `limit` with the two highest exponent bits forced high, which repurposes
/// the low-limit register as an end-of-conversion signal.
pub open spec fn eoc_overlay(limit: u16) -> u16 {
    limit | (0b1100u16 << 12)
}

/// The four status flags as decoded from a configuration register value.
pub open spec fn decode_status(bits: u16) -> Status {
    Status {
        has_overflown: bits & OVF != 0,
        conversion_ready: bits & CRF != 0,
        was_too_high: bits & FH != 0,
        was_too_low: bits & FL != 0,
    }
}

} // verus!
