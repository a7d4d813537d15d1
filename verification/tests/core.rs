use gpu_info::cache_utils::{is_fresh, CacheEntry};
use gpu_info::extended_info::{OverclockingInfo, PerformanceInfo, PerformanceState, ThrottleReason};
use gpu_info::ffi_utils::{AdlResult, ApiResult, ApiTable, LibraryLoader, LoadStep, NvmlResult};
use gpu_info::gpu_info::{
    adopt_first, clone_option_string, handle_empty_result, update_gpu_from_api, Formattable,
    GpuError, GpuRecord,
};
use gpu_info::text::{bytes_until_nul, c_buffer_text};
use gpu_info::vendor::{determine_intel_gpu_type_from_name, determine_vendor_from_name, IntelGpuType, Vendor};
use std::time::Duration;

#[test]
fn handle_empty_result_rejects_only_empty_lists() {
    assert!(matches!(handle_empty_result::<u32>(vec![]), Err(GpuError::GpuNotFound)));
    assert_eq!(handle_empty_result(vec![1, 2, 3]).ok(), Some(vec![1, 2, 3]));
}

#[test]
fn clone_option_string_copies_the_source() {
    let mut dest = Some("old".to_string());
    clone_option_string(&mut dest, &Some("new value".to_string()));
    assert_eq!(dest.as_deref(), Some("new value"));
    clone_option_string(&mut dest, &None);
    assert_eq!(dest, None);
    clone_option_string(&mut dest, &Some("x".to_string()));
    assert_eq!(dest.as_deref(), Some("x"));
}

#[test]
fn record_formatting_and_validation() {
    let mut gpu = GpuRecord::write_vendor(Vendor::Nvidia);
    assert_eq!(gpu.format_name_gpu(), "Unknown GPU");
    assert_eq!(gpu.format_driver_version(), "Unknown Driver Version");
    assert_eq!(gpu.format_core_clock(), "N/A");
    assert_eq!(gpu.format_active(), "Inactive");
    gpu.name_gpu = Some("RTX 4090".to_string());
    gpu.core_clock = Some(2520);
    gpu.active = Some(true);
    assert_eq!(gpu.format_name_gpu(), "RTX 4090");
    assert_eq!(gpu.format_core_clock(), "2520 MHz");
    assert_eq!(gpu.format_active(), "Active");
    assert!(gpu.is_vendor_known());
    assert!(gpu.has_clock_info());
    assert!(gpu.validate().is_ok());
    gpu.memory_total = Some(200_000);
    assert!(matches!(gpu.validate(), Err(GpuError::InvalidMemory(200_000))));
    gpu.core_clock = Some(6000);
    assert!(matches!(gpu.validate(), Err(GpuError::InvalidClockSpeed(6000))));
    assert!(!GpuRecord::unknown().is_vendor_known());
}

#[test]
fn updates_take_the_first_gpu() {
    let mut gpu = GpuRecord::unknown();
    assert!(matches!(update_gpu_from_api(&mut gpu, vec![]), Err(GpuError::GpuNotActive)));
    assert_eq!(gpu.vendor, Vendor::Unknown);
    let a = GpuRecord::write_vendor(Vendor::Amd);
    let b = GpuRecord::write_vendor(Vendor::Intel(IntelGpuType::Discrete));
    assert!(update_gpu_from_api(&mut gpu, vec![a.clone(), b.clone()]).is_ok());
    assert_eq!(gpu.vendor, Vendor::Amd);
    adopt_first(&mut gpu, vec![]);
    assert_eq!(gpu.vendor, Vendor::Amd);
    adopt_first(&mut gpu, vec![b]);
    assert_eq!(gpu.vendor, Vendor::Intel(IntelGpuType::Discrete));
}

#[test]
fn formattable_values() {
    assert_eq!(Some(42u32).fmt_string(), "42");
    assert_eq!(None::<u32>.fmt_string(), "N/A");
    assert_eq!(Some(true).fmt_string(), "true");
    assert_eq!(None::<bool>.fmt_string(), "N/A");
    assert_eq!(Some("Arc A770".to_string()).fmt_string(), "Arc A770");
    assert_eq!(Some("x").fmt_string(), "x");
    assert_eq!(None::<&str>.fmt_string(), "N/A");
    assert_eq!("plain".to_string().fmt_string(), "plain");
}

#[test]
fn vendors_from_names() {
    assert_eq!(determine_vendor_from_name("NVIDIA GeForce RTX 3080"), Vendor::Nvidia);
    assert_eq!(determine_vendor_from_name("Radeon RX 6800"), Vendor::Amd);
    assert_eq!(determine_vendor_from_name("NVIDIA Quadro M2000"), Vendor::Nvidia);
    assert_eq!(determine_vendor_from_name("AMD Radeon Pro W5700M2"), Vendor::Amd);
    assert_eq!(determine_vendor_from_name("Intel Iris Xe M1"), Vendor::Intel(IntelGpuType::Integrated));
    assert_eq!(determine_vendor_from_name("Apple M3 Max"), Vendor::Apple);
    assert_eq!(determine_intel_gpu_type_from_name("Intel Arc A770"), IntelGpuType::Discrete);
    assert_eq!(determine_intel_gpu_type_from_name("Intel UHD Graphics 770"), IntelGpuType::Integrated);
    assert_eq!(Vendor::Nvidia.name(), "NVIDIA");
}

#[test]
fn api_results_expose_value_on_success_only() {
    let ok = NvmlResult { code: 0, value: 7u32 };
    assert!(ok.is_success());
    assert_eq!(ok.error_code(), 0);
    assert_eq!(ok.to_option(), Some(7));
    let failed = NvmlResult { code: 999, value: 7u32 };
    assert!(!failed.is_success());
    assert_eq!(failed.error_code(), 999);
    assert_eq!(failed.to_option(), None);
    let adl = AdlResult { code: -1, value: "x" };
    assert_eq!(adl.error_code(), -1);
    assert_eq!(adl.to_option(), None);
    assert_eq!(AdlResult { code: 0, value: 3 }.to_option(), Some(3));
}

#[test]
fn library_loader_tries_name_then_fallbacks_in_order() {
    let loader = LibraryLoader::new("nvml.dll")
        .with_fallback_path("a.dll")
        .with_fallback_path("b.dll");
    let mut tried = Vec::new();
    let mut attempt = 0;
    let message = loop {
        match loader.load_step(attempt) {
            LoadStep::Try(path) => tried.push(path),
            LoadStep::GiveUp(message) => break message,
        }
        attempt += 1;
    };
    assert_eq!(tried, vec!["nvml.dll", "a.dll", "b.dll"]);
    assert_eq!(message, "Failed to load library nvml.dll and all fallback paths");
    assert_eq!(loader.failure_message(), message);
    let plain = LibraryLoader::new("libx.so");
    assert!(matches!(plain.load_step(0), LoadStep::Try(p) if p == "libx.so"));
    assert!(matches!(plain.load_step(1), LoadStep::GiveUp(_)));
}

#[test]
fn api_table_holds_its_functions() {
    let table = ApiTable::new((1u8, 2u8));
    assert_eq!(*table.functions(), (1, 2));
}

#[test]
fn cache_entries_and_freshness() {
    let entry = CacheEntry::new(5u32);
    assert_eq!(entry.value, 5);
    assert!(entry.is_valid(Duration::from_secs(3600)));
    assert!(!entry.is_valid(Duration::from_secs(0)));
    let _ = entry.age();
    assert!(is_fresh(&Duration::from_millis(5), &Duration::from_millis(10)));
    assert!(!is_fresh(&Duration::from_millis(10), &Duration::from_millis(10)));
}

#[test]
fn extended_info_defaults() {
    let perf = PerformanceInfo::default();
    assert!(perf.base_core_clock.is_none());
    assert!(perf.available_performance_states.is_empty());
    assert_eq!(perf.overclocking_info, OverclockingInfo::default());
    assert!(OverclockingInfo::default().voltage_limit.is_none());
    assert_ne!(ThrottleReason::Temperature, ThrottleReason::NotThrottling);
    assert_ne!(PerformanceState::Maximum, PerformanceState::PowerSaver);
}

#[test]
fn c_strings_end_at_the_first_nul() {
    assert_eq!(bytes_until_nul(b"abc\0def\0"), Some(b"abc".to_vec()));
    assert_eq!(bytes_until_nul(b"\0"), Some(vec![]));
    assert_eq!(bytes_until_nul(b"abc"), None);
    assert_eq!(c_buffer_text(b"Radeon\0junk"), Some("Radeon".to_string()));
    assert_eq!(c_buffer_text(b"no nul"), None);
}
