//! AMD GPU provider (ADL on Windows).
use vstd::prelude::*;
use crate::vendor::Vendor;

verus! {

/// AMD GPU provider.
pub struct AmdProvider;

impl AmdProvider {
    /// Creates the provider.
    pub fn new() -> (r: Self) {
        AmdProvider
    }

    /// The vendor this provider serves: AMD.
    pub fn get_vendor(&self) -> (r: Vendor)
        ensures
            r == Vendor::Amd,
    {
        Vendor::Amd
    }
}

impl Default for AmdProvider {
    fn default() -> (r: Self) {
        Self::new()
    }
}

} // verus!
