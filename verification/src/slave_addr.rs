//! Slave address selection.

use vstd::prelude::*;

verus! {

use crate::SlaveAddr;

/// Base 7-bit address of the device family; the two lowest bits can be
/// raised by the address-select pin straps.
pub const DEVICE_BASE_ADDRESS: u8 = 0b100_0100;

/// The 7-bit bus address an address selection stands for.
pub open spec fn spec_addr(address: SlaveAddr) -> u8 {
    match address {
        SlaveAddr::Default => DEVICE_BASE_ADDRESS,
        SlaveAddr::Alternative(a1, a0) => DEVICE_BASE_ADDRESS | (if a1 {
            0b10
        } else {
            0
        }) | (if a0 {
            0b01
        } else {
            0
        }),
    }
}

impl SlaveAddr {
    /// Get the 7-bit bus address this selection stands for.
    pub fn addr(self) -> (a: u8)
        ensures
            a == spec_addr(self),
    {
        match self {
            SlaveAddr::Default => DEVICE_BASE_ADDRESS,
            SlaveAddr::Alternative(a1, a0) => {
                let high: u8 = if a1 {
                    0b10
                } else {
                    0
                };
                let low: u8 = if a0 {
                    0b01
                } else {
                    0
                };
                DEVICE_BASE_ADDRESS | high | low
            },
        }
    }
}

impl Default for SlaveAddr {
    /// Default slave address
    fn default() -> (address: Self)
        ensures
            address is Default,
    {
        SlaveAddr::Default
    }
}

} // verus!
