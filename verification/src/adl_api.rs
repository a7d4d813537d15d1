//! The AMD Display Library (ADL) data and the GPU descriptions built from
//! it.
//!
//! Loading ADL and calling it is the caller's part; the layouts here are
//! those of the ADL SDK, and the functions take what the calls returned.
use vstd::prelude::*;
use crate::ffi_utils::{AdlResult, LibraryLoader};
use crate::gpu_info::{GpuRecord, GpuRecordView};
use crate::text::{c_buffer_text, until_nul, utf8_lossy};
use crate::vendor::Vendor;

verus! {

/// ADL's success status.
pub const ADL_OK: i32 = 0;

/// Length of ADL's string fields.
pub const ADL_MAX_PATH: usize = 256;

/// The PCI vendor id ADL reports for AMD adapters.
pub const ADL_AMD_VENDOR_ID: i32 = 0x1002;

/// ADL adapter information (the ADL SDK's `AdapterInfo`).
#[allow(non_snake_case)]
#[derive(Clone)]
pub struct AdapterInfo {
    /// Adapter name, NUL-terminated.
    pub strAdapterName: [u8; ADL_MAX_PATH],
    /// Display name, NUL-terminated.
    pub strDisplayName: [u8; ADL_MAX_PATH],
    /// Adapter index used in ADL calls.
    pub iAdapterIndex: i32,
    /// PCI bus number.
    pub iBusNumber: i32,
    /// PCI device number.
    pub iDeviceNumber: i32,
    /// PCI function number.
    pub iFunctionNumber: i32,
    /// PCI vendor id.
    pub iVendorID: i32,
    /// Driver path.
    pub strDriverPath: [u8; ADL_MAX_PATH],
    /// Extended driver path.
    pub strDriverPathExt: [u8; ADL_MAX_PATH],
    /// PnP identifier.
    pub strPNPString: [u8; ADL_MAX_PATH],
    /// Non-zero when the adapter exists and is active.
    pub iExist: i32,
    /// Unique device identifier.
    pub strUDID: [u8; ADL_MAX_PATH],
    /// Memory size, MB.
    pub iMemorySize: i32,
    /// Memory type.
    pub iMemoryType: i32,
    /// Core clock.
    pub iCoreClock: i32,
    /// Memory clock.
    pub iMemoryClock: i32,
}

/// ADL temperature reading (the ADL SDK's `ADLTemperature`).
pub struct ADLTemperature {
    /// Size of the structure, bytes.
    pub size: i32,
    /// Temperature, millidegrees Celsius.
    pub temperature: i32,
}

/// ADL activity reading (the ADL SDK's `ADLPMActivity`).
#[derive(Clone, Copy)]
pub struct ADLPMActivity {
    /// Size of the structure, bytes.
    pub size: i32,
    /// Engine (core) clock, in 10 kHz units.
    pub engine_clock: i32,
    /// Memory clock, in 10 kHz units.
    pub memory_clock: i32,
    /// VDDC voltage.
    pub vddc: i32,
    /// GPU activity, percent.
    pub activity_percent: i32,
    /// Current performance level.
    pub current_performance_level: i32,
    /// Current bus speed.
    pub current_bus_speed: i32,
    /// Bus lanes in use.
    pub current_bus_lanes: i32,
    /// Bus lanes available.
    pub maximum_bus_lanes: i32,
    /// Reserved.
    pub reserved: i32,
}

/// Where ADL is looked for: `atiadlxx.dll`, then `atiadlxy.dll`, then the
/// system directory.
pub fn adl_loader() -> (r: LibraryLoader)
    ensures
        r.candidates() == seq![
            "atiadlxx.dll"@,
            "atiadlxy.dll"@,
            "C:\\Windows\\System32\\atiadlxx.dll"@,
        ],
{
    let r = LibraryLoader::new("atiadlxx.dll").with_fallback_path("atiadlxy.dll").with_fallback_path(
        "C:\\Windows\\System32\\atiadlxx.dll",
    );
    assert(r.candidates() =~= seq![
        "atiadlxx.dll"@,
        "atiadlxy.dll"@,
        "C:\\Windows\\System32\\atiadlxx.dll"@,
    ]);
    r
}

/// An adapter that exists and is AMD's.
pub open spec fn is_amd_adapter_spec(a: AdapterInfo) -> bool {
    a.iExist != 0 && a.iVendorID == ADL_AMD_VENDOR_ID
}

/// Whether the adapter exists and is AMD's.
pub fn is_amd_adapter(a: &AdapterInfo) -> (r: bool)
    ensures
        r == is_amd_adapter_spec(*a),
{
    a.iExist != 0 && a.iVendorID == ADL_AMD_VENDOR_ID
}

/// The record of an adapter given its activity reading (when the activity
/// call succeeded); `None` when the adapter name holds no NUL.
pub open spec fn adl_record_spec(a: AdapterInfo, activity: Option<ADLPMActivity>) -> Option<
    GpuRecordView,
> {
    match until_nul(a.strAdapterName@) {
        None => None,
        Some(name) => Some(
            GpuRecordView {
                vendor: Vendor::Amd,
                name_gpu: Some(utf8_lossy(name)),
                core_clock: match activity {
                    Some(act) => Some(act.engine_clock as u32),
                    None => None,
                },
                memory_clock: match activity {
                    Some(act) => Some(act.memory_clock as u32),
                    None => None,
                },
                active: Some(true),
                memory_total: if a.iMemorySize > 0 {
                    Some(a.iMemorySize as u32)
                } else {
                    None
                },
                memory_used: None,
                driver_version: None,
                max_clock_speed: None,
            },
        ),
    }
}

/// The record of an adapter given its activity reading.
pub fn create_gpu_info(adapter: &AdapterInfo, activity: Option<&ADLPMActivity>) -> (r: Option<
    GpuRecord,
>)
    ensures
        match adl_record_spec(
            *adapter,
            match activity {
                Some(a) => Some(*a),
                None => None,
            },
        ) {
            Some(v) => r matches Some(g) && g@ == v,
            None => r is None,
        },
{
    let name = match c_buffer_text(adapter.strAdapterName.as_slice()) {
        Some(n) => n,
        None => {
            return None;
        },
    };
    let (core_clock, memory_clock) = match activity {
        Some(act) => (Some(act.engine_clock as u32), Some(act.memory_clock as u32)),
        None => (None, None),
    };
    Some(
        GpuRecord {
            vendor: Vendor::Amd,
            name_gpu: Some(name),
            core_clock,
            memory_clock,
            active: Some(true),
            memory_total: if adapter.iMemorySize > 0 {
                Some(adapter.iMemorySize as u32)
            } else {
                None
            },
            memory_used: None,
            driver_version: None,
            max_clock_speed: None,
        },
    )
}

/// The records of the AMD adapters among `adapters`, in their order;
/// `activities[i]` is the activity reading of `adapters[i]`, if its call
/// succeeded. Adapters whose name holds no NUL are skipped.
pub open spec fn amd_records(adapters: Seq<AdapterInfo>, activities: Seq<Option<ADLPMActivity>>) -> Seq<
    GpuRecordView,
>
    decreases adapters.len(),
{
    if adapters.len() == 0 {
        seq![]
    } else {
        let prev = amd_records(adapters.drop_last(), activities.drop_last());
        if is_amd_adapter_spec(adapters.last()) {
            match adl_record_spec(adapters.last(), activities.last()) {
                Some(v) => prev.push(v),
                None => prev,
            }
        } else {
            prev
        }
    }
}

/// The records of the AMD adapters.
pub fn get_amd_gpus(adapters: &[AdapterInfo], activities: &[Option<ADLPMActivity>]) -> (r: Vec<
    GpuRecord,
>)
    requires
        adapters@.len() == activities@.len(),
    ensures
        r@.map_values(|g: GpuRecord| g@) == amd_records(adapters@, activities@),
{
    let mut out: Vec<GpuRecord> = Vec::new();
    let mut i: usize = 0;
    while i < adapters.len()
        invariant
            i <= adapters@.len(),
            adapters@.len() == activities@.len(),
            out@.map_values(|g: GpuRecord| g@) == amd_records(
                adapters@.subrange(0, i as int),
                activities@.subrange(0, i as int),
            ),
        decreases adapters@.len() - i,
    {
        let ghost pa = adapters@.subrange(0, i as int);
        let ghost pb = activities@.subrange(0, i as int);
        let ghost ea = adapters@.subrange(0, i + 1);
        let ghost eb = activities@.subrange(0, i + 1);
        assert(ea.drop_last() =~= pa);
        assert(eb.drop_last() =~= pb);
        let ghost before = out@;
        if is_amd_adapter(&adapters[i]) {
            let act = match &activities[i] {
                Some(a) => Some(a),
                None => None,
            };
            match create_gpu_info(&adapters[i], act) {
                Some(g) => {
                    out.push(g);
                    assert(out@.map_values(|g: GpuRecord| g@) =~= before.map_values(
                        |g: GpuRecord| g@,
                    ).push(g@));
                },
                None => {},
            }
        }
        i = i + 1;
    }
    assert(adapters@.subrange(0, i as int) =~= adapters@);
    assert(activities@.subrange(0, i as int) =~= activities@);
    out
}

/// Whether ADL is initialized.
pub struct AdlSession {
    initialized: bool,
}

impl AdlSession {
    /// Whether ADL is initialized.
    pub closed spec fn initialized(self) -> bool {
        self.initialized
    }

    /// A session before initialization.
    pub fn new() -> (r: Self)
        ensures
            !r.initialized(),
    {
        AdlSession { initialized: false }
    }

    /// Whether ADL is initialized.
    pub fn is_initialized(&self) -> (r: bool)
        ensures
            r == self.initialized(),
    {
        self.initialized
    }

    /// Whether initializing calls `ADL_Main_Control_Create`: only when ADL
    /// is not initialized yet.
    pub fn needs_create(&self) -> (r: bool)
        ensures
            r == !self.initialized(),
    {
        !self.initialized
    }

    /// Records the status of `ADL_Main_Control_Create`: ADL is initialized
    /// when it succeeded.
    pub fn record_create(&mut self, code: i32) -> (r: AdlResult<()>)
        ensures
            r.code == code,
            final(self).initialized() == (old(self).initialized() || code == ADL_OK),
    {
        if code == ADL_OK {
            self.initialized = true;
        }
        AdlResult { code, value: () }
    }

    /// Whether shutting down calls `ADL_Main_Control_Destroy`: only when ADL
    /// is initialized.
    pub fn needs_destroy(&self) -> (r: bool)
        ensures
            r == self.initialized(),
    {
        self.initialized
    }

    /// Records the status of `ADL_Main_Control_Destroy`: ADL is no longer
    /// initialized when it succeeded.
    pub fn record_destroy(&mut self, code: i32) -> (r: AdlResult<()>)
        ensures
            r.code == code,
            final(self).initialized() == (old(self).initialized() && code != ADL_OK),
    {
        if code == ADL_OK {
            self.initialized = false;
        }
        AdlResult { code, value: () }
    }

    /// The outcome of initializing when no call is needed: success.
    pub fn already_done() -> (r: AdlResult<()>)
        ensures
            r.code == ADL_OK,
    {
        AdlResult { code: ADL_OK, value: () }
    }
}

} // verus!
