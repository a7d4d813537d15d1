//! Backend detecting GPUs through the `system_profiler` command.
use vstd::prelude::*;
use crate::gpu_info::{GpuError, GpuRecord};

verus! {

/// Backend that uses `system_profiler` for GPU detection.
pub struct SystemProfilerBackend;

impl SystemProfilerBackend {
    /// Creates the backend.
    pub fn new() -> (r: Self) {
        SystemProfilerBackend
    }

    /// The GPUs this backend detects: it finds none itself (detection through
    /// `system_profiler` output is done by the platform parser).
    pub fn detect_gpus(&self) -> (r: Result<Vec<GpuRecord>, GpuError>)
        ensures
            r matches Ok(v) && v@.len() == 0,
    {
        Ok(Vec::new())
    }

    /// Leaves the record unchanged.
    pub fn update_gpu(&self, gpu: &mut GpuRecord) -> (r: Result<(), GpuError>)
        ensures
            r is Ok,
            *final(gpu) == *old(gpu),
    {
        Ok(())
    }
}

impl Default for SystemProfilerBackend {
    fn default() -> (r: Self) {
        Self::new()
    }
}

} // verus!
