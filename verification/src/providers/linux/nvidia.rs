//! NVIDIA GPU provider for Linux: the GPU description built from what NVML
//! reports for the first device.
//!
//! Loading NVML and calling it is the caller's part; the functions here take
//! its status codes and readings.
use vstd::prelude::*;
use crate::gpu_info::{GpuError, GpuRecord, GpuRecordView};
use crate::nvml_api::{device_name_spec, get_device_name};
use crate::vendor::Vendor;

verus! {

/// The status NVML returns for a call that succeeded.
pub const NVML_SUCCESS: i32 = 0;

/// NVIDIA GPU provider for Linux.
pub struct NvidiaLinuxProvider;

/// What NVML reported for device 0, each reading with the status of the
/// call that produced it.
pub struct NvmlDeviceReadings {
    /// Status of `nvmlDeviceGetHandleByIndex_v2(0, ..)`.
    pub handle_status: i32,
    /// Status of `nvmlDeviceGetName`.
    pub name_status: i32,
    /// The buffer NVML wrote the NUL-terminated device name into.
    pub name_buffer: Vec<u8>,
    /// Status of `nvmlDeviceGetClockInfo(.., NVML_CLOCK_GRAPHICS, ..)`.
    pub clock_status: i32,
    /// The graphics clock, MHz.
    pub clock_mhz: u32,
    /// Status of `nvmlDeviceGetMemoryInfo`.
    pub memory_status: i32,
    /// Total memory, bytes.
    pub memory_total_bytes: u64,
    /// Used memory, bytes.
    pub memory_used_bytes: u64,
}

/// Whole MB of a byte count, cut to 32 bits as `as u32` does.
pub open spec fn mb_of(bytes: u64) -> u32 {
    (bytes / 1024 / 1024) as u32
}

/// The record of device 0, or `None` when NVML gave no handle for it. The
/// name is the text of the buffer before its first NUL, decoded as UTF-8
/// with invalid sequences replaced (empty when the buffer holds no NUL).
pub open spec fn nvml_record_spec(r: NvmlDeviceReadings) -> Option<GpuRecordView> {
    if r.handle_status != NVML_SUCCESS {
        None
    } else {
        let memory_ok = r.memory_status == NVML_SUCCESS;
        Some(
            GpuRecordView {
                vendor: Vendor::Nvidia,
                name_gpu: Some(
                    if r.name_status == NVML_SUCCESS {
                        device_name_spec(r.name_status, r.name_buffer@)
                    } else {
                        "NVIDIA GPU"@
                    },
                ),
                core_clock: if r.clock_status == NVML_SUCCESS {
                    Some(r.clock_mhz)
                } else {
                    None
                },
                memory_clock: None,
                active: Some(true),
                memory_total: if memory_ok {
                    Some(mb_of(r.memory_total_bytes))
                } else {
                    None
                },
                memory_used: if memory_ok {
                    Some(mb_of(r.memory_used_bytes))
                } else {
                    None
                },
                driver_version: None,
                max_clock_speed: None,
            },
        )
    }
}

/// `m` is the number of whole MB in `bytes`.
pub open spec fn is_whole_mb(bytes: u64, m: Option<u32>) -> bool {
    m matches Some(x) && x * 0x10_0000 <= bytes < (x + 1) * 0x10_0000
}

/// The record `v` shows what NVML reported in `r`: an NVIDIA GPU whose core
/// clock is the graphics clock exactly when NVML gave it, and whose memory
/// figures are the whole MB of the byte counts exactly when NVML gave them
/// (for counts below 2^52 bytes, whose MB fit in 32 bits).
pub open spec fn shows_nvml_readings(r: NvmlDeviceReadings, v: GpuRecordView) -> bool {
    &&& v.vendor == Vendor::Nvidia
    &&& (r.clock_status == NVML_SUCCESS ==> v.core_clock == Some(r.clock_mhz))
    &&& (r.clock_status != NVML_SUCCESS ==> v.core_clock is None)
    &&& (r.memory_status != NVML_SUCCESS ==> v.memory_total is None && v.memory_used is None)
    &&& (r.memory_status == NVML_SUCCESS && r.memory_total_bytes < 0x10_0000_0000_0000
        ==> is_whole_mb(r.memory_total_bytes, v.memory_total))
    &&& (r.memory_status == NVML_SUCCESS && r.memory_used_bytes < 0x10_0000_0000_0000
        ==> is_whole_mb(r.memory_used_bytes, v.memory_used))
}

/// What NVML reported shows in the record of device 0: no record without a
/// handle, and with one a record that shows the readings.
pub proof fn lemma_nvml_record_reports_what_nvml_gave(r: NvmlDeviceReadings)
    ensures
        r.handle_status != NVML_SUCCESS ==> nvml_record_spec(r) is None,
        r.handle_status == NVML_SUCCESS ==> (nvml_record_spec(r) matches Some(v)
            && shows_nvml_readings(r, v)),
{
    if r.handle_status == NVML_SUCCESS && r.memory_status == NVML_SUCCESS {
        let t = r.memory_total_bytes;
        let u = r.memory_used_bytes;
        assert(t / 1024 / 1024 == t / 0x10_0000) by (nonlinear_arith);
        assert(u / 1024 / 1024 == u / 0x10_0000) by (nonlinear_arith);
        if t < 0x10_0000_0000_0000 {
            assert(t / 0x10_0000 < 0x1_0000_0000) by (nonlinear_arith)
                requires
                    t < 0x10_0000_0000_0000,
            ;
            assert((t / 0x10_0000) * 0x10_0000 <= t < (t / 0x10_0000 + 1) * 0x10_0000) by (
            nonlinear_arith);
        }
        if u < 0x10_0000_0000_0000 {
            assert(u / 0x10_0000 < 0x1_0000_0000) by (nonlinear_arith)
                requires
                    u < 0x10_0000_0000_0000,
            ;
            assert((u / 0x10_0000) * 0x10_0000 <= u < (u / 0x10_0000 + 1) * 0x10_0000) by (
            nonlinear_arith);
        }
    }
}

impl NvidiaLinuxProvider {
    /// Creates the provider.
    pub fn new() -> (r: Self) {
        NvidiaLinuxProvider
    }

    /// The vendor this provider serves: NVIDIA.
    pub fn get_vendor(&self) -> (r: Vendor)
        ensures
            r == Vendor::Nvidia,
    {
        Vendor::Nvidia
    }

    /// The path NVML is loaded from: the value of `NVML_LIB_PATH` when it is
    /// set, `/usr/lib/libnvidia-ml.so.1` otherwise.
    pub fn nvml_library_path(env_value: Option<&str>) -> (r: String)
        ensures
            match env_value {
                Some(v) => r@ == v@,
                None => r@ == "/usr/lib/libnvidia-ml.so.1"@,
            },
    {
        match env_value {
            Some(v) => String::from_str(v),
            None => String::from_str("/usr/lib/libnvidia-ml.so.1"),
        }
    }

    /// The record of device 0 from NVML's readings; `GpuNotFound` when NVML
    /// gave no handle for the device.
    pub fn nvml_record(readings: &NvmlDeviceReadings) -> (r: Result<GpuRecord, GpuError>)
        ensures
            match nvml_record_spec(*readings) {
                Some(v) => r matches Ok(g) && g@ == v,
                None => r matches Err(GpuError::GpuNotFound),
            },
    {
        if readings.handle_status != NVML_SUCCESS {
            return Err(GpuError::GpuNotFound);
        }
        let name = if readings.name_status == NVML_SUCCESS {
            get_device_name(readings.name_status, readings.name_buffer.as_slice()).value
        } else {
            String::from_str("NVIDIA GPU")
        };
        let core_clock = if readings.clock_status == NVML_SUCCESS {
            Some(readings.clock_mhz)
        } else {
            None
        };
        let (memory_total, memory_used) = if readings.memory_status == NVML_SUCCESS {
            (
                Some((readings.memory_total_bytes / 1024 / 1024) as u32),
                Some((readings.memory_used_bytes / 1024 / 1024) as u32),
            )
        } else {
            (None, None)
        };
        Ok(
            GpuRecord {
                vendor: Vendor::Nvidia,
                name_gpu: Some(name),
                core_clock,
                memory_clock: None,
                active: Some(true),
                memory_total,
                memory_used,
                driver_version: None,
                max_clock_speed: None,
            },
        )
    }

    /// The GPUs found through NVML: `DriverNotInstalled` when the library or
    /// one of its functions could not be loaded (`session` is `None`),
    /// otherwise device 0 as `nvml_record` describes it.
    pub fn detect_gpus(&self, session: Option<&NvmlDeviceReadings>) -> (r: Result<
        Vec<GpuRecord>,
        GpuError,
    >)
        ensures
            match session {
                None => r matches Err(GpuError::DriverNotInstalled),
                Some(s) => match nvml_record_spec(*s) {
                    Some(v) => r matches Ok(gs) && gs@.len() == 1 && gs@[0]@ == v,
                    None => r matches Err(GpuError::GpuNotFound),
                },
            },
    {
        match session {
            None => Err(GpuError::DriverNotInstalled),
            Some(s) => match Self::nvml_record(s) {
                Ok(g) => {
                    let mut gs: Vec<GpuRecord> = Vec::new();
                    gs.push(g);
                    Ok(gs)
                },
                Err(e) => Err(e),
            },
        }
    }
}

impl Default for NvidiaLinuxProvider {
    fn default() -> (r: Self) {
        Self::new()
    }
}

} // verus!
