//! Marker types for the acquisition modes.

use vstd::prelude::*;

verus! {

/// One shot mode
pub struct OneShot(());

/// Continuous measurement mode
pub struct Continuous(());

impl crate::marker::Sealed for OneShot {}

impl crate::marker::Sealed for Continuous {}

} // verus!
