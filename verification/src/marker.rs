//! Marker traits restricting which types may tag a driver handle.

use vstd::prelude::*;

verus! {

/// Implemented by the device and mode markers this crate supports; the set is
/// meant to be closed, so user code should not implement it.
pub trait Sealed {}

/// Marker for device models that expose a device ID register.
pub trait WithDeviceId: Sealed {}

} // verus!
