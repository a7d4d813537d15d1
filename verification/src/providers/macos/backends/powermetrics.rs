//! Backend reading GPU metrics from the `powermetrics` tool.
use vstd::prelude::*;
use crate::gpu_info::{GpuError, GpuRecord};

verus! {

/// Backend that reads GPU metrics from the `powermetrics` command.
pub struct PowerMetricsBackend;

impl PowerMetricsBackend {
    /// Creates the backend.
    pub fn new() -> (r: Self) {
        PowerMetricsBackend
    }

    /// Whether `powermetrics` is installed, given how `which powermetrics`
    /// went: it is when the command ran and succeeded (`None` when it could
    /// not be run).
    pub fn is_available(&self, which_succeeded: Option<bool>) -> (r: bool)
        ensures
            r == (which_succeeded == Some(true)),
    {
        match which_succeeded {
            Some(ok) => ok,
            None => false,
        }
    }

    /// Leaves the record unchanged: `powermetrics` reports none of its fields.
    pub fn update_gpu(&self, gpu: &mut GpuRecord) -> (r: Result<(), GpuError>)
        ensures
            r is Ok,
            *final(gpu) == *old(gpu),
    {
        Ok(())
    }
}

impl Default for PowerMetricsBackend {
    fn default() -> (r: Self) {
        Self::new()
    }
}

} // verus!
