//! Driver for the OPT300x family of ambient light sensors.
//!
//! The sensors are single-chip lux meters on a two-wire, register-oriented
//! bus. The driver mirrors the device's 16-bit configuration register in
//! memory, offers type-state handles for the two acquisition modes
//! ([`mode::OneShot`] and [`mode::Continuous`]), and decodes the device's
//! exponent/mantissa result format.
//!
//! The bus itself is reached through the [`bus::I2cBus`] trait, whose
//! contract records every transaction in a ghost log; all register-level
//! guarantees of the driver are stated over that log.

use core::marker::PhantomData;
use vstd::prelude::*;

pub mod bus;
pub mod config;
pub mod convert;
pub mod ic;
pub mod laws;
pub mod marker;
pub mod mode;
pub mod scripted;

mod device_impl;
mod slave_addr;

verus! {

use crate::config::Config;

/// Errors of the driver.
#[derive(Debug)]
pub enum Error<E> {
    /// Bus communication error.
    I2C(E),
    /// Invalid input data provided.
    InvalidInputData,
}

/// Error type for mode changes.
///
/// This allows to retrieve the unchanged device in case of an error.
pub enum ModeChangeError<E, DEV> {
    /// Bus error while changing mode.
    ///
    /// `E` is the error that happened.
    /// `DEV` is the device with the mode unchanged.
    I2C(E, DEV),
}

/// Outcome of one poll of a non-blocking operation.
///
/// A one-shot acquisition completes over several polls; the caller decides
/// whether to spin, sleep or schedule between them.
#[derive(Debug)]
pub enum PollError<E> {
    /// The operation is not complete yet; poll again later.
    WouldBlock,
    /// The operation failed.
    Other(E),
}

/// Possible slave addresses
#[derive(Debug, Clone, Copy)]
pub enum SlaveAddr {
    /// Default slave address
    Default,
    /// Alternative slave address providing bit values for A1 and A0
    Alternative(bool, bool),
}

/// Fault count
///
/// Number of consecutive fault events necessary to trigger interrupt.
#[derive(Debug, Clone, Copy, PartialEq)]
pub enum FaultCount {
    /// One (default)
    One,
    /// Two
    Two,
    /// Four
    Four,
    /// Eight
    Eight,
}

/// Interrupt pin polarity (active state)
#[derive(Debug, Clone, Copy, PartialEq)]
pub enum InterruptPinPolarity {
    /// Active low (default)
    Low,
    /// Active high
    High,
}

/// Lux range
#[derive(Debug, Clone, Copy, PartialEq)]
pub enum LuxRange {
    /// Manual [0-11]
    Manual(u8),
    /// Automatic selection (default)
    Auto,
}

/// Integration time
#[derive(Debug, Clone, Copy, PartialEq)]
pub enum IntegrationTime {
    /// 100 ms
    Ms100,
    /// 800 ms
    Ms800,
}

/// Result comparison mode for interrupt reporting
#[derive(Debug, Clone, Copy, PartialEq)]
pub enum ComparisonMode {
    /// Latched window-style
    LatchedWindow,
    /// Transparent hysteresis-style (default)
    TransparentHysteresis,
}

/// Conversion status
#[derive(Debug, Clone, Copy, PartialEq)]
pub struct Status {
    /// Whether an overflow condition during the conversion has occurred.
    pub has_overflown: bool,
    /// Whether a new conversion is ready.
    pub conversion_ready: bool,
    /// Whether the result is higher that the configured high limit.
    pub was_too_high: bool,
    /// Whether the result is lower than the configured low limit.
    pub was_too_low: bool,
}

/// One-shot measurement
#[derive(Debug, Clone, Copy, PartialEq)]
pub struct Measurement<T> {
    /// Result
    pub result: T,
    /// Conversion status.
    pub status: Status,
}

/// OPT300x device driver
#[derive(Debug)]
pub struct Opt300x<I2C, IC, MODE> {
    i2c: I2C,
    address: u8,
    config: Config,
    low_limit: u16,
    was_conversion_started: bool,
    _ic: PhantomData<IC>,
    _mode: PhantomData<MODE>,
}

} // verus!
