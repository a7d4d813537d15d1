//! NVIDIA GPU provider (NVML).
use vstd::prelude::*;
use crate::vendor::Vendor;

verus! {

/// NVIDIA GPU provider.
pub struct NvidiaProvider;

impl NvidiaProvider {
    /// Creates the provider.
    pub fn new() -> (r: Self) {
        NvidiaProvider
    }

    /// The vendor this provider serves: NVIDIA.
    pub fn get_vendor(&self) -> (r: Vendor)
        ensures
            r == Vendor::Nvidia,
    {
        Vendor::Nvidia
    }
}

impl Default for NvidiaProvider {
    fn default() -> (r: Self) {
        Self::new()
    }
}

} // verus!
