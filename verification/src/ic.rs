//! Marker types for the supported device models.

use vstd::prelude::*;

verus! {

/// Used for OPT3001 devices
pub struct Opt3001(());

/// Used for OPT3002 devices
pub struct Opt3002(());

/// Used for OPT3004 devices
pub struct Opt3004(());

/// Used for OPT3006 devices
pub struct Opt3006(());

/// Used for OPT3007 devices
pub struct Opt3007(());

impl crate::marker::Sealed for Opt3001 {}

impl crate::marker::Sealed for Opt3002 {}

impl crate::marker::Sealed for Opt3004 {}

impl crate::marker::Sealed for Opt3006 {}

impl crate::marker::Sealed for Opt3007 {}

impl crate::marker::WithDeviceId for Opt3001 {}

} // verus!
