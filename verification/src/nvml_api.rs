//! The NVIDIA Management Library (NVML) data and the GPU descriptions built
//! from it.
//!
//! Loading NVML and calling it is the caller's part; the layouts here are
//! NVML's, and the functions take what the calls returned.
#![allow(non_camel_case_types)]
use vstd::prelude::*;
use crate::ffi_utils::{ApiResult, LibraryLoader, NvmlResult};
use crate::gpu_info::{GpuRecord, GpuRecordView};
use crate::text::{c_buffer_text, until_nul, utf8_lossy};
use crate::vendor::Vendor;

verus! {

/// NVML's success status.
pub const NVML_SUCCESS: i32 = 0;

/// NVML's sensor id of the GPU die temperature.
pub const NVML_TEMPERATURE_GPU: i32 = 0;

/// NVML's clock id of the graphics clock.
pub const NVML_CLOCK_GRAPHICS: i32 = 0;

/// The NVML device a handle points to; its content is NVML's.
#[derive(Debug, Clone, Copy)]
pub struct nvmlDevice_st {
    _private: [u8; 0],
}

/// NVML utilization rates, percent.
#[derive(Debug, Clone, Copy)]
pub struct nvmlUtilization_t {
    /// GPU utilization.
    pub gpu: u32,
    /// Memory utilization.
    pub memory: u32,
}

/// NVML memory information, bytes.
#[derive(Debug, Clone, Copy)]
pub struct nvmlMemory_t {
    /// Total memory.
    pub total: u64,
    /// Free memory.
    pub free: u64,
    /// Used memory.
    pub used: u64,
}

/// Where NVML is looked for on Unix: the `NVML_LIB_PATH` value when set
/// (else `/usr/lib/libnvidia-ml.so.1`), then the multiarch and `lib64`
/// locations.
pub fn nvml_loader(env_value: Option<&str>) -> (r: LibraryLoader)
    ensures
        r.candidates() == seq![
            match env_value {
                Some(v) => v@,
                None => "/usr/lib/libnvidia-ml.so.1"@,
            },
            "/usr/lib/x86_64-linux-gnu/libnvidia-ml.so.1"@,
            "/usr/lib64/libnvidia-ml.so.1"@,
        ],
{
    let path = match env_value {
        Some(v) => v,
        None => "/usr/lib/libnvidia-ml.so.1",
    };
    let r = LibraryLoader::new(path).with_fallback_path(
        "/usr/lib/x86_64-linux-gnu/libnvidia-ml.so.1",
    ).with_fallback_path("/usr/lib64/libnvidia-ml.so.1");
    assert(r.candidates() =~= seq![
        path@,
        "/usr/lib/x86_64-linux-gnu/libnvidia-ml.so.1"@,
        "/usr/lib64/libnvidia-ml.so.1"@,
    ]);
    r
}

/// The name NVML wrote into `buf`: on success the text before the first NUL
/// (empty when there is none), otherwise empty.
pub open spec fn device_name_spec(code: i32, buf: Seq<u8>) -> Seq<char> {
    if code == NVML_SUCCESS {
        match until_nul(buf) {
            Some(b) => utf8_lossy(b),
            None => seq![],
        }
    } else {
        seq![]
    }
}

/// The outcome of `nvmlDeviceGetName` with status `code` and buffer `buf`.
pub fn get_device_name(code: i32, buf: &[u8]) -> (r: NvmlResult<String>)
    ensures
        r.code == code,
        r.value@ == device_name_spec(code, buf@),
{
    let name = if code == NVML_SUCCESS {
        match c_buffer_text(buf) {
            Some(s) => s,
            None => String::new(),
        }
    } else {
        String::new()
    };
    NvmlResult { code, value: name }
}

/// The record of a device from its readings, `None` when any of the calls
/// (name, temperature, utilization, power, clock, memory) failed. Total
/// memory is given in MB, as the record's memory fields are.
pub open spec fn nvml_record_spec(
    name: NvmlResult<String>,
    temperature_code: i32,
    utilization_code: i32,
    power_code: i32,
    clock: NvmlResult<u32>,
    memory: NvmlResult<(u64, u64, u64)>,
) -> Option<GpuRecordView> {
    if name.code == NVML_SUCCESS && temperature_code == NVML_SUCCESS && utilization_code
        == NVML_SUCCESS && power_code == NVML_SUCCESS && clock.code == NVML_SUCCESS && memory.code
        == NVML_SUCCESS {
        Some(
            GpuRecordView {
                vendor: Vendor::Nvidia,
                name_gpu: Some(name.value@),
                core_clock: Some(clock.value),
                memory_clock: None,
                active: Some(true),
                memory_total: Some((memory.value.0 / 1_048_576u64) as u32),
                memory_used: None,
                driver_version: None,
                max_clock_speed: None,
            },
        )
    } else {
        None
    }
}

/// The record of a device from the outcomes of its NVML calls.
pub fn create_gpu_info(
    name: NvmlResult<String>,
    temperature_code: i32,
    utilization_code: i32,
    power_code: i32,
    clock: NvmlResult<u32>,
    memory: NvmlResult<(u64, u64, u64)>,
) -> (r: Option<GpuRecord>)
    ensures
        match nvml_record_spec(name, temperature_code, utilization_code, power_code, clock, memory) {
            Some(v) => r matches Some(g) && g@ == v,
            None => r is None,
        },
{
    let ghost name_in = name;
    let ghost clock_in = clock;
    let ghost memory_in = memory;
    let name = match name.to_option() {
        Some(n) => n,
        None => {
            return None;
        },
    };
    if temperature_code != NVML_SUCCESS || utilization_code != NVML_SUCCESS || power_code
        != NVML_SUCCESS {
        return None;
    }
    let core_clock = match clock.to_option() {
        Some(c) => c,
        None => {
            return None;
        },
    };
    let (total, _free, _used) = match memory.to_option() {
        Some(m) => m,
        None => {
            return None;
        },
    };
    Some(
        GpuRecord {
            vendor: Vendor::Nvidia,
            name_gpu: Some(name),
            core_clock: Some(core_clock),
            memory_clock: None,
            active: Some(true),
            memory_total: Some((total / 1_048_576u64) as u32),
            memory_used: None,
            driver_version: None,
            max_clock_speed: None,
        },
    )
}

/// The NVIDIA GPUs found: none when NVML could not be initialized,
/// otherwise device 0 when it could be described.
pub fn get_nvidia_gpus(init: NvmlResult<()>, described: Option<GpuRecord>) -> (r: Vec<GpuRecord>)
    ensures
        init.code != NVML_SUCCESS ==> r@.len() == 0,
        init.code == NVML_SUCCESS ==> match described {
            Some(g) => r@ == seq![g],
            None => r@.len() == 0,
        },
{
    let mut out: Vec<GpuRecord> = Vec::new();
    if init.is_success() {
        match described {
            Some(g) => out.push(g),
            None => {},
        }
    }
    out
}

} // verus!
