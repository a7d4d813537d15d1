use gpu_info::providers::windows::intel::{
    frequency_from_symbols, max_frequency_from_symbols, memory_frequency_from_symbol, SymbolValue,
};
use gpu_info::gpu_info::GpuRecord;
use gpu_info::gpu_manager::GpuManager;
use gpu_info::metric_value::MetricValue;
use gpu_info::providers::intel::IntelProvider;
use gpu_info::providers::macos::backends::iokit::IOKitBackend;
use gpu_info::providers::macos::backends::metal::is_valid_device;
use gpu_info::providers::macos::config::{BackendFeatures, MacosBackend, MacosConfig};
use gpu_info::providers::macos::router::{BackendRouter, Operation};
use gpu_info::providers::windows::intel::IntelWindowsProvider;
use gpu_info::vendor::{GpuVendor, IntelGpuType, Vendor};

const ARC_REPORT: &str = "\r\nName          : Intel(R) Arc(TM) A770 Graphics\r\nAdapterRAM    : 4293918720\r\nDriverVersion : 31.0.101.4887\r\nStatus        : OK\r\n";
const UHD_REPORT: &str = "Name          : Intel(R) UHD Graphics 770\nAdapterRAM    : 1073741824\nDriverVersion : 31.0.101.4502\nStatus        : Degraded\n";
const COMPUTER: &str = "\nTotalPhysicalMemory : 34359738368\n";

#[test]
fn wmi_report_of_a_discrete_gpu() {
    let p = IntelProvider::new();
    let gpu = p.parse_gpu_info(ARC_REPORT, None).unwrap();
    assert_eq!(gpu.vendor, Vendor::Intel(IntelGpuType::Discrete));
    assert_eq!(gpu.name_gpu.as_deref(), Some("Intel(R) Arc(TM) A770 Graphics"));
    assert_eq!(gpu.memory_total, Some(4095));
    assert_eq!(gpu.driver_version.as_deref(), Some("31.0.101.4887"));
    assert_eq!(gpu.active, Some(true));
}

#[test]
fn wmi_report_of_an_integrated_gpu_uses_shared_memory() {
    let p = IntelProvider::new();
    let gpu = p.parse_gpu_info(UHD_REPORT, Some(COMPUTER)).unwrap();
    assert_eq!(gpu.vendor, Vendor::Intel(IntelGpuType::Integrated));
    assert_eq!(gpu.memory_total, Some(16384));
    assert_eq!(gpu.active, Some(false));
    let without = p.parse_gpu_info(UHD_REPORT, None).unwrap();
    assert_eq!(without.memory_total, None);
    assert_eq!(p.get_system_shared_memory(COMPUTER), Some(16384));
    let empty = p.parse_gpu_info("", None).unwrap();
    assert_eq!(empty.name_gpu.as_deref(), Some("Intel GPU"));
    assert_eq!(empty.active, None);
    assert_eq!(p.determine_intel_gpu_type("Intel Iris Xe"), IntelGpuType::Integrated);
}

#[test]
fn windows_intel_basic_info_refresh() {
    let basic = IntelWindowsProvider::get_basic_gpu_info(vec![]);
    assert!(basic.is_err());
    let mut fresh = GpuRecord::write_vendor(Vendor::Intel(IntelGpuType::Discrete));
    fresh.name_gpu = Some("Arc".to_string());
    fresh.memory_total = Some(16384);
    fresh.active = Some(true);
    let fresh = IntelWindowsProvider::get_basic_gpu_info(vec![fresh]).ok().unwrap();
    let mut gpu = GpuRecord::unknown();
    gpu.core_clock = Some(2100);
    IntelWindowsProvider::apply_basic_info(&mut gpu, fresh);
    assert_eq!(gpu.name_gpu.as_deref(), Some("Arc"));
    assert_eq!(gpu.memory_total, Some(16384));
    assert_eq!(gpu.core_clock, Some(2100));
    assert_eq!(gpu.vendor, Vendor::Intel(IntelGpuType::Discrete));
}

#[test]
fn small_facts_of_devices_and_vendors() {
    assert!(is_valid_device(3));
    assert!(!is_valid_device(0));
    assert!(IOKitBackend::new().unwrap().get_pci_info("gpu").is_none());
    assert!(Vendor::Amd.is_discrete());
    assert!(!Vendor::Intel(IntelGpuType::Discrete).is_discrete());
    let _ = GpuVendor::default();
}

#[test]
fn laws_on_concrete_values() {
    // An option survives the trip through a metric value.
    assert_eq!(MetricValue::from(Some(3u8)).into_option(), Some(3));
    assert_eq!(MetricValue::<u8>::from(None).into_option(), None);
    // The primary index always names a GPU and vendor counts add up.
    let m = GpuManager::new(vec![
        GpuRecord::write_vendor(Vendor::Apple),
        GpuRecord::write_vendor(Vendor::Unknown),
        GpuRecord::write_vendor(Vendor::Intel(IntelGpuType::Unknown)),
    ]);
    assert!(m.primary_gpu_index() < m.gpu_count());
    let c = m.vendor_counts();
    assert_eq!(
        c.nvidia_count + c.amd_count + c.intel_count + c.apple_count + c.unknown_count,
        c.total_gpus
    );
    // The router only hands out backends it found.
    let router = BackendRouter::new(
        MacosConfig { preferred_backend: MacosBackend::Metal, ..Default::default() },
        BackendFeatures { iokit: true, metal: true },
        false,
    );
    assert!(router.is_backend_available(router.select_backend(Operation::GetTemperature)));
}

#[test]
fn intel_metrics_symbols_give_frequencies() {
    let current = [None, Some(SymbolValue::Uint32(0)), Some(SymbolValue::FloatWhole(1450))];
    assert_eq!(frequency_from_symbols(&current).ok(), Some(1450));
    assert_eq!(max_frequency_from_symbols(&current).ok(), None);
    let max = [Some(SymbolValue::Other), Some(SymbolValue::Uint64(2400)), Some(SymbolValue::Uint32(99))];
    assert_eq!(max_frequency_from_symbols(&max).ok(), Some(2400));
    assert!(matches!(
        frequency_from_symbols(&[Some(SymbolValue::Uint32(12000)), None, None]),
        Err(gpu_info::gpu_info::GpuError::FeatureNotEnabled(m)) if m == "Frequency metric not available"
    ));
    assert_eq!(memory_frequency_from_symbol(Some(SymbolValue::Uint64(1600))).ok(), Some(1600));
    assert!(matches!(
        memory_frequency_from_symbol(Some(SymbolValue::FloatWhole(1600))),
        Err(gpu_info::gpu_info::GpuError::FeatureNotEnabled(m)) if m == "Invalid memory frequency type"
    ));
    assert!(matches!(
        memory_frequency_from_symbol(None),
        Err(gpu_info::gpu_info::GpuError::FeatureNotEnabled(m)) if m == "Memory frequency not available"
    ));
}
