use gpu_info::adl_api::{
    adl_loader, create_gpu_info, get_amd_gpus, is_amd_adapter, ADLPMActivity, AdapterInfo,
    AdlSession, ADL_MAX_PATH,
};
use gpu_info::ffi_utils::{LoadStep, NvmlResult};
use gpu_info::gpu_info::{GpuError, GpuRecord};
use gpu_info::gpu_manager::{update_route, GpuManager, Platform, UpdateRoute};
use gpu_info::linux::{detect_vendor, info_gpu};
use gpu_info::monitoring::{
    LogAlertHandler, LoopAction, MonitorControl, MonitorLoop, MonitorStats, StartPlan,
    MAX_CONSECUTIVE_ERRORS,
};
use gpu_info::nvml_api::{create_gpu_info as nvml_gpu, get_device_name, get_nvidia_gpus, nvml_loader};
use gpu_info::provider_manager::GpuProviderManager;
use gpu_info::vendor::{IntelGpuType, Vendor};
use std::time::Instant;

fn gpu(vendor: Vendor, active: Option<bool>) -> GpuRecord {
    let mut g = GpuRecord::write_vendor(vendor);
    g.active = active;
    g
}

#[test]
fn manager_prefers_nvidia_or_amd_as_primary() {
    let m = GpuManager::new(vec![
        gpu(Vendor::Intel(IntelGpuType::Integrated), Some(true)),
        gpu(Vendor::Amd, Some(true)),
        gpu(Vendor::Nvidia, None),
    ]);
    assert_eq!(m.gpu_count(), 3);
    assert_eq!(m.primary_gpu_index(), 1);
    assert_eq!(m.get_primary_gpu().unwrap().vendor, Vendor::Amd);
    let only_intel = GpuManager::new(vec![gpu(Vendor::Intel(IntelGpuType::Unknown), None)]);
    assert_eq!(only_intel.primary_gpu_index(), 0);
}

#[test]
fn manager_without_gpus_holds_an_unknown_one() {
    let m = GpuManager::new(vec![]);
    assert_eq!(m.gpu_count(), 1);
    assert_eq!(m.get_all_gpus()[0].vendor, Vendor::Unknown);
    assert_eq!(m.get_primary_gpu_owned().unwrap().vendor, Vendor::Unknown);
}

#[test]
fn set_primary_gpu_checks_the_index() {
    let mut m = GpuManager::new(vec![gpu(Vendor::Nvidia, None), gpu(Vendor::Apple, None)]);
    assert!(m.set_primary_gpu(1).is_ok());
    assert_eq!(m.get_primary_gpu().unwrap().vendor, Vendor::Apple);
    assert!(matches!(m.set_primary_gpu(2), Err(GpuError::GpuNotFound)));
    assert_eq!(m.primary_gpu_index(), 1);
    assert!(m.get_gpu_by_index(5).is_none());
    assert_eq!(m.get_gpu_by_index_owned(0).unwrap().vendor, Vendor::Nvidia);
}

#[test]
fn activity_and_vendor_queries() {
    let m = GpuManager::new(vec![
        gpu(Vendor::Nvidia, Some(true)),
        gpu(Vendor::Amd, Some(false)),
        gpu(Vendor::Nvidia, None),
        gpu(Vendor::Intel(IntelGpuType::Discrete), Some(true)),
    ]);
    assert!(!m.all_gpus_active());
    assert_eq!(m.get_active_gpu_indices(), vec![0, 3]);
    assert_eq!(m.get_gpus_by_vendor_owned(Vendor::Nvidia).len(), 2);
    assert_eq!(m.get_gpus_by_vendor_owned(Vendor::Apple).len(), 0);
    let c = m.vendor_counts();
    assert_eq!(c.total_gpus, 4);
    assert_eq!(c.nvidia_count, 2);
    assert_eq!(c.amd_count, 1);
    assert_eq!(c.intel_count, 1);
    assert_eq!(c.apple_count + c.unknown_count, 0);
    let all_on = GpuManager::new(vec![gpu(Vendor::Amd, Some(true))]);
    assert!(all_on.all_gpus_active());
    assert_eq!(m.get_all_gpus_owned().len(), 4);
}

#[test]
fn refresh_keeps_partial_updates_and_reports_the_first_error() {
    let mut m = GpuManager::new(vec![gpu(Vendor::Nvidia, None), gpu(Vendor::Amd, None)]);
    let mut fresh = gpu(Vendor::Nvidia, Some(true));
    fresh.core_clock = Some(1800);
    let mut partial = gpu(Vendor::Amd, None);
    partial.memory_clock = Some(1000);
    let r = m.refresh_all_gpus(vec![(fresh, Ok(())), (partial, Err(GpuError::DriverNotInstalled))]);
    assert!(matches!(r, Err(GpuError::DriverNotInstalled)));
    assert_eq!(m.get_all_gpus()[0].core_clock, Some(1800));
    assert_eq!(m.get_all_gpus()[1].active, None);
    assert_eq!(m.get_all_gpus()[1].memory_clock, Some(1000));
    let r = m.refresh_all_gpus(vec![
        (gpu(Vendor::Nvidia, None), Err(GpuError::GpuNotActive)),
        (gpu(Vendor::Amd, Some(true)), Err(GpuError::DriverNotInstalled)),
    ]);
    assert!(matches!(r, Err(GpuError::GpuNotActive)));
    assert!(m.refresh_all_gpus(vec![(gpu(Vendor::Nvidia, None), Ok(())), (gpu(Vendor::Amd, Some(true)), Ok(()))]).is_ok());
    assert_eq!(m.get_all_gpus()[1].active, Some(true));
    assert!(matches!(m.replace_gpu(9, GpuRecord::unknown()), Err(GpuError::GpuNotFound)));
    assert!(m.replace_gpu(0, GpuRecord::unknown()).is_ok());
    assert_eq!(m.get_all_gpus()[0].vendor, Vendor::Unknown);
    m.detect_all_gpus(vec![gpu(Vendor::Apple, None)]);
    assert_eq!(m.gpu_count(), 1);
}

#[test]
fn monitor_loop_pauses_after_ten_failures_in_a_row() {
    let mut lp = MonitorLoop::new();
    let mut stats = MonitorStats::default();
    for k in 1..MAX_CONSECUTIVE_ERRORS {
        lp.begin_iteration();
        stats.record_error();
        assert_eq!(lp.record_failure(), LoopAction::Continue);
        assert_eq!(lp.consecutive_errors(), k);
    }
    stats.record_error();
    assert_eq!(lp.record_failure(), LoopAction::PauseAfterErrors);
    assert_eq!(lp.consecutive_errors(), 0);
    assert_eq!(stats.total_errors, 10);
    lp.record_failure();
    assert_eq!(lp.consecutive_errors(), 1);
    let start = Instant::now();
    lp.record_success();
    stats.record_measurement(start);
    assert_eq!(lp.consecutive_errors(), 0);
    assert_eq!(stats.total_measurements, 1);
    assert_eq!(stats.total_errors, 10);
    assert_eq!(stats.last_collection_time, Some(start));
    assert_eq!(lp.iteration_count(), 9);
}

#[test]
fn monitor_starts_once_and_stops_once() {
    let mut control = MonitorControl::new();
    assert!(!control.is_monitoring());
    assert_eq!(control.start(0), StartPlan::Launch { add_default_handler: true });
    assert!(control.is_monitoring());
    assert_eq!(control.start(1), StartPlan::AlreadyRunning);
    assert!(control.stop());
    assert!(!control.stop());
    assert_eq!(control.start(2), StartPlan::Launch { add_default_handler: false });
    assert_eq!(LogAlertHandler.name(), "LogAlertHandler");
}

#[test]
fn provider_registry_serves_by_vendor() {
    let mut m: GpuProviderManager<&str> = GpuProviderManager::new();
    m.register_provider(Vendor::Nvidia, "nvml");
    m.register_provider(Vendor::Intel(IntelGpuType::Unknown), "wmi");
    m.register_provider(Vendor::Nvidia, "nvml-2");
    assert_eq!(m.get_registered_vendors(), vec![Vendor::Nvidia, Vendor::Intel(IntelGpuType::Unknown)]);
    assert!(m.is_vendor_supported(&Vendor::Nvidia));
    assert!(!m.is_vendor_supported(&Vendor::Amd));
    assert!(!m.is_vendor_supported(&Vendor::Intel(IntelGpuType::Discrete)));
    assert_eq!(m.provider_for(Vendor::Nvidia), Some(&"nvml-2"));
    assert_eq!(m.provider_for(Vendor::Intel(IntelGpuType::Discrete)), Some(&"wmi"));
    assert_eq!(m.provider_for(Vendor::Amd), None);
}

fn adapter(name: &[u8], exist: i32, vendor: i32, memory: i32) -> AdapterInfo {
    let mut n = [0u8; ADL_MAX_PATH];
    n[..name.len()].copy_from_slice(name);
    AdapterInfo {
        strAdapterName: n,
        strDisplayName: [0; ADL_MAX_PATH],
        iAdapterIndex: 0,
        iBusNumber: 0,
        iDeviceNumber: 0,
        iFunctionNumber: 0,
        iVendorID: vendor,
        strDriverPath: [0; ADL_MAX_PATH],
        strDriverPathExt: [0; ADL_MAX_PATH],
        strPNPString: [0; ADL_MAX_PATH],
        iExist: exist,
        strUDID: [0; ADL_MAX_PATH],
        iMemorySize: memory,
        iMemoryType: 0,
        iCoreClock: 0,
        iMemoryClock: 0,
    }
}

fn activity(engine: i32, memory: i32) -> ADLPMActivity {
    ADLPMActivity {
        size: 40,
        engine_clock: engine,
        memory_clock: memory,
        vddc: 0,
        activity_percent: 50,
        current_performance_level: 0,
        current_bus_speed: 0,
        current_bus_lanes: 0,
        maximum_bus_lanes: 0,
        reserved: 0,
    }
}

#[test]
fn adl_adapters_become_amd_records() {
    let a = adapter(b"AMD Radeon RX 6800", 1, 0x1002, 16384);
    assert!(is_amd_adapter(&a));
    let g = create_gpu_info(&a, Some(&activity(2105, 1000))).unwrap();
    assert_eq!(g.name_gpu.as_deref(), Some("AMD Radeon RX 6800"));
    assert_eq!(g.core_clock, Some(2105));
    assert_eq!(g.memory_total, Some(16384));
    let list = vec![a, adapter(b"gone", 0, 0x1002, 1), adapter(b"other", 1, 0x10de, 1), adapter(b"RX 580", 1, 0x1002, 0)];
    let acts = vec![None, None, None, Some(activity(1340, 2000))];
    let gpus = get_amd_gpus(&list, &acts);
    assert_eq!(gpus.len(), 2);
    assert_eq!(gpus[0].core_clock, None);
    assert_eq!(gpus[1].memory_total, None);
    assert_eq!(gpus[1].memory_clock, Some(2000));
    let mut no_nul = adapter(b"", 1, 0x1002, 1);
    no_nul.strAdapterName = [b'A'; ADL_MAX_PATH];
    assert!(create_gpu_info(&no_nul, None).is_none());
}

#[test]
fn adl_session_and_loader() {
    let mut s = AdlSession::new();
    assert!(s.needs_create());
    assert_eq!(s.record_create(-3).code, -3);
    assert!(!s.is_initialized());
    s.record_create(0);
    assert!(s.is_initialized() && !s.needs_create() && s.needs_destroy());
    s.record_destroy(0);
    assert!(!s.is_initialized());
    assert_eq!(AdlSession::already_done().code, 0);
    let l = adl_loader();
    assert!(matches!(l.load_step(1), LoadStep::Try(p) if p == "atiadlxy.dll"));
    assert!(matches!(l.load_step(3), LoadStep::GiveUp(_)));
}

#[test]
fn nvml_names_records_and_loader() {
    let mut buf = [0u8; 64];
    buf[..8].copy_from_slice(b"RTX 4080");
    let name = get_device_name(0, &buf);
    assert_eq!(name.value, "RTX 4080");
    assert_eq!(get_device_name(1, &buf).value, "");
    let g = nvml_gpu(
        get_device_name(0, &buf),
        0,
        0,
        0,
        NvmlResult { code: 0, value: 2505u32 },
        NvmlResult { code: 0, value: (16 * 1024 * 1024 * 1024u64, 0u64, 0u64) },
    )
    .unwrap();
    assert_eq!(g.memory_total, Some(16384));
    assert_eq!(g.core_clock, Some(2505));
    assert!(nvml_gpu(get_device_name(0, &buf), 0, 15, 0, NvmlResult { code: 0, value: 1u32 }, NvmlResult { code: 0, value: (0u64, 0u64, 0u64) }).is_none());
    assert_eq!(get_nvidia_gpus(NvmlResult { code: 0, value: () }, Some(g.clone())).len(), 1);
    assert!(get_nvidia_gpus(NvmlResult { code: 9, value: () }, Some(g)).is_empty());
    let l = nvml_loader(None);
    assert!(matches!(l.load_step(0), LoadStep::Try(p) if p == "/usr/lib/libnvidia-ml.so.1"));
    assert!(matches!(l.load_step(2), LoadStep::Try(p) if p == "/usr/lib64/libnvidia-ml.so.1"));
}

#[test]
fn linux_vendor_detection_and_primary_gpu() {
    assert_eq!(detect_vendor(Some("0x10de\n"), false), Vendor::Nvidia);
    assert_eq!(detect_vendor(Some("0x1002"), false), Vendor::Amd);
    assert_eq!(detect_vendor(Some(" 0x8086 "), false), Vendor::Intel(IntelGpuType::Unknown));
    assert_eq!(detect_vendor(Some("0x1234"), true), Vendor::Nvidia);
    assert_eq!(detect_vendor(None, false), Vendor::Unknown);
    assert_eq!(info_gpu(Ok(vec![gpu(Vendor::Amd, Some(true))])).vendor, Vendor::Amd);
    assert_eq!(info_gpu(Ok(vec![])).vendor, Vendor::Unknown);
    assert_eq!(info_gpu(Err(GpuError::GpuNotFound)).vendor, Vendor::Unknown);
}

#[test]
fn bounded_history_keeps_the_latest() {
    let mut h: std::collections::VecDeque<u32> = std::collections::VecDeque::new();
    for k in 1..=5u32 {
        gpu_info::monitoring::push_bounded(&mut h, k, 3);
    }
    assert_eq!(h.iter().copied().collect::<Vec<u32>>(), vec![3, 4, 5]);
    gpu_info::monitoring::push_bounded(&mut h, 6, 0);
    assert!(h.is_empty());
}

#[test]
fn gpus_are_routed_to_their_platform_provider() {
    assert_eq!(update_route(Platform::Linux, Vendor::Nvidia), UpdateRoute::LinuxNvidia);
    assert_eq!(update_route(Platform::Linux, Vendor::Amd), UpdateRoute::LinuxAmd);
    assert_eq!(
        update_route(Platform::Linux, Vendor::Intel(IntelGpuType::Integrated)),
        UpdateRoute::NotImplemented
    );
    assert_eq!(
        update_route(Platform::Windows, Vendor::Intel(IntelGpuType::Discrete)),
        UpdateRoute::WindowsIntel
    );
    assert_eq!(update_route(Platform::Windows, Vendor::Apple), UpdateRoute::NotImplemented);
    assert_eq!(update_route(Platform::MacOs, Vendor::Nvidia), UpdateRoute::MacOs);
    assert_eq!(update_route(Platform::Other, Vendor::Amd), UpdateRoute::NotImplemented);
}
