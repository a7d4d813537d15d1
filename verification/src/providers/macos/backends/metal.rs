//! Metal backend: detection of Metal-capable GPUs and their power state.
use vstd::prelude::*;
use crate::gpu_info::{GpuError, GpuRecord};
use crate::text::string_from_chars;
use crate::vendor::Vendor;

verus! {

/// Handle of a Metal device.
pub type MetalDevice = usize;

/// Whether a Metal device handle refers to a device (is not null).
pub fn is_valid_device(device: MetalDevice) -> (r: bool)
    ensures
        r == (device != 0),
{
    device != 0
}

/// Power state of a GPU.
#[derive(Debug, Clone, Copy, PartialEq, Eq, Structural)]
pub enum PowerState {
    /// Powered off.
    Off,
    /// Sleeping or idle.
    Sleep,
    /// Active in low-power mode.
    ActiveLowPower,
    /// Active in high-performance mode.
    ActiveHighPerformance,
}

/// The record of a GPU found through Metal: unknown vendor, named
/// "Unknown Metal GPU".
pub open spec fn metal_record(r: GpuRecord) -> bool {
    &&& r.vendor == Vendor::Unknown
    &&& r.name_gpu matches Some(n) && n@ == "Unknown Metal GPU"@
    &&& r.core_clock is None
    &&& r.memory_clock is None
    &&& r.active is None
    &&& r.memory_total is None
    &&& r.memory_used is None
    &&& r.driver_version is None
    &&& r.max_clock_speed is None
}

/// Free memory of a Metal device, in bytes: what is left of the recommended
/// maximum `recommended_max` once `allocated` is in use, zero when more than
/// that is allocated.
pub fn free_memory(recommended_max: u64, allocated: u64) -> (r: u64)
    ensures
        r == (if allocated <= recommended_max {
            recommended_max - allocated
        } else {
            0
        }),
{
    if allocated <= recommended_max {
        recommended_max - allocated
    } else {
        0
    }
}

/// Metal-based backend for GPU detection and metrics.
pub struct MetalBackend {
    devices: Vec<MetalDevice>,
}

impl MetalBackend {
    /// The devices the backend found when it was created.
    pub closed spec fn cached_devices(&self) -> Seq<MetalDevice> {
        self.devices@
    }

    /// Creates the backend; no Metal device is cached.
    pub fn new() -> (r: Result<Self, GpuError>)
        ensures
            r matches Ok(b) && b.cached_devices().len() == 0,
    {
        Ok(MetalBackend { devices: Vec::new() })
    }

    /// Creates the backend in a build that has it (`built`, the
    /// `macos-metal` build feature) or not: as `new` when built with it,
    /// `FeatureNotEnabled` otherwise.
    pub fn for_build(built: bool) -> (r: Result<Self, GpuError>)
        ensures
            built ==> (r matches Ok(b) && b.cached_devices().len() == 0),
            !built ==> (r matches Err(GpuError::FeatureNotEnabled(m)) && m@
                == "macos-metal feature is not enabled"@),
    {
        if built {
            Self::new()
        } else {
            Err(GpuError::FeatureNotEnabled(String::from_str("macos-metal feature is not enabled")))
        }
    }

    /// The records of all Metal-capable GPUs, one per enumerated device.
    pub fn detect_gpus(&self) -> (r: Result<Vec<GpuRecord>, GpuError>)
        ensures
            r matches Ok(v) && v@.len() == 0,
    {
        let devices = self.enumerate_metal_devices()?;
        let mut gpus: Vec<GpuRecord> = Vec::new();
        let mut i: usize = 0;
        while i < devices.len()
            invariant
                i <= devices@.len(),
                devices@.len() == 0,
                gpus@.len() == i,
                forall|k: int| 0 <= k < i ==> metal_record(#[trigger] gpus@[k]),
            decreases devices@.len() - i,
        {
            let gpu = self.create_gpu_info_from_device(devices[i]);
            gpus.push(gpu);
            i = i + 1;
        }
        Ok(gpus)
    }

    /// Reads the power state and leaves the record unchanged: Metal gives no
    /// field of the record here.
    pub fn update_gpu(&self, gpu: &mut GpuRecord) -> (r: Result<(), GpuError>)
        ensures
            r is Ok,
            *final(gpu) == *old(gpu),
    {
        let _state = self.read_power_state()?;
        Ok(())
    }

    /// The Metal devices of the system; device enumeration is not available
    /// here, so there are none.
    pub fn enumerate_metal_devices(&self) -> (r: Result<Vec<MetalDevice>, GpuError>)
        ensures
            r matches Ok(v) && v@.len() == 0,
    {
        Ok(Vec::new())
    }

    /// The record of a Metal device.
    pub fn create_gpu_info_from_device(&self, device: MetalDevice) -> (r: GpuRecord)
        ensures
            metal_record(r),
    {
        let mut gpu = GpuRecord::write_vendor(Vendor::Unknown);
        gpu.name_gpu = Some(String::from_str("Unknown Metal GPU"));
        gpu
    }

    /// The GPU power state; not reported by Metal here, so `None`.
    pub fn read_power_state(&self) -> (r: Result<Option<PowerState>, GpuError>)
        ensures
            r matches Ok(s) && s is None,
    {
        Ok(None)
    }
}

} // verus!
