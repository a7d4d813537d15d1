use gpu_info::gpu_info::GpuError;
use gpu_info::providers::amd::AmdProvider;
use gpu_info::providers::intel::IntelProvider;
use gpu_info::providers::linux::amd::{AmdCardReadings, AmdLinuxProvider};
use gpu_info::providers::linux::intel::{IntelCardReadings, IntelLinuxProvider};
use gpu_info::providers::linux::nvidia::{NvidiaLinuxProvider, NvmlDeviceReadings};
use gpu_info::providers::linux::sysfs::{
    active_dpm_clock, bytes_to_mb, first_u32, first_u64, hz_to_mhz, is_card_entry, max_dpm_clock,
    parse_hex_id,
};
use gpu_info::providers::nvidia::NvidiaProvider;
use gpu_info::providers::windows::intel::IntelWindowsProvider;
use gpu_info::vendor::{IntelGpuType, Vendor};

#[test]
fn test_amd_provider_vendor() {
    let provider = AmdProvider::new();
    assert_eq!(provider.get_vendor(), Vendor::Amd);
}

#[test]
fn test_intel_provider_vendor() {
    let provider = IntelProvider::new();
    match provider.get_vendor() {
        Vendor::Intel(_) => {}
        _ => panic!("Expected Intel vendor"),
    }
}

#[test]
fn test_nvidia_provider_vendor() {
    let provider = NvidiaProvider::new();
    assert_eq!(provider.get_vendor(), Vendor::Nvidia);
}

#[test]
fn test_amd_linux_provider_vendor() {
    let provider = AmdLinuxProvider::new();
    assert_eq!(provider.get_vendor(), Vendor::Amd);
}

#[test]
fn linux_and_windows_providers_report_their_vendor() {
    assert_eq!(
        IntelLinuxProvider::new().get_vendor(),
        Vendor::Intel(IntelGpuType::Unknown)
    );
    assert_eq!(NvidiaLinuxProvider::new().get_vendor(), Vendor::Nvidia);
    assert_eq!(
        IntelWindowsProvider::new().get_vendor(),
        Vendor::Intel(IntelGpuType::Unknown)
    );
}

#[test]
fn drm_card_entries_exclude_connectors() {
    assert!(is_card_entry("card0"));
    assert!(is_card_entry("card12"));
    assert!(!is_card_entry("card0-DP-1"));
    assert!(!is_card_entry("renderD128"));
    assert!(!is_card_entry("version"));
}

#[test]
fn hex_ids_are_read_with_or_without_prefix() {
    assert_eq!(parse_hex_id("0x1002\n").ok(), Some(0x1002));
    assert_eq!(parse_hex_id("  10de ").ok(), Some(0x10de));
    assert_eq!(parse_hex_id("0x0x8086").ok(), Some(0x8086));
    assert!(matches!(parse_hex_id("zz"), Err(GpuError::GpuNotFound)));
    assert!(matches!(parse_hex_id(""), Err(GpuError::GpuNotFound)));
    assert!(matches!(parse_hex_id("0x100000000"), Err(GpuError::GpuNotFound)));
}

#[test]
fn active_dpm_level_is_the_first_starred_line_that_parses() {
    let table = "0: 300Mhz\n1: 600Mhz *\n2: 900Mhz\n";
    assert_eq!(active_dpm_clock(table), Some(600));
    assert_eq!(active_dpm_clock("0: 300Mhz\n1: 900Mhz\n"), None);
    assert_eq!(active_dpm_clock("0: fast *\n1: 800Mhz *\n"), Some(800));
    assert_eq!(active_dpm_clock(""), None);
}

#[test]
fn max_dpm_level_is_the_largest_clock() {
    assert_eq!(max_dpm_clock("0: 300Mhz *\n1: 1900Mhz\n2: 900Mhz\n"), Some(1900));
    assert_eq!(max_dpm_clock("0: 0Mhz\n"), None);
    assert_eq!(max_dpm_clock("garbage"), None);
}

#[test]
fn hwmon_readings_and_units() {
    let readings = vec!["oops".to_string(), " 1500000000\n".to_string(), "7".to_string()];
    assert_eq!(first_u64(&readings), Some(1_500_000_000));
    assert_eq!(first_u32(&["x".to_string(), "42".to_string()]), Some(42));
    assert_eq!(first_u32(&["5000000000".to_string()]), None);
    assert_eq!(hz_to_mhz(1_500_000_000), 1500);
    assert_eq!(hz_to_mhz(999_999), 0);
    assert_eq!(bytes_to_mb(8 * 1024 * 1024 * 1024), 8192);
}

fn amd_readings(vendor_id: u32) -> AmdCardReadings {
    AmdCardReadings {
        vendor_id,
        product_name: None,
        subsystem_device: Some("0x0e3b\n".to_string()),
        module_version: Some("5.7.0\n".to_string()),
        sclk_table: Some("0: 500Mhz\n1: 2100Mhz *\n".to_string()),
        mclk_table: None,
        core_freqs: vec![],
        memory_freqs: vec!["bad".to_string(), "1000000000".to_string()],
        max_freqs: vec![],
        vram_total: Some("17163091968\n".to_string()),
    }
}

#[test]
fn amd_card_record_from_sysfs_readings() {
    let provider = AmdLinuxProvider::new();
    let gpu = provider.probe_amd_card(&amd_readings(0x1002)).ok().unwrap();
    assert_eq!(gpu.vendor, Vendor::Amd);
    assert_eq!(gpu.name_gpu.as_deref(), Some("AMD GPU (Device ID: 0x0e3b)"));
    assert_eq!(gpu.driver_version.as_deref(), Some("5.7.0"));
    assert_eq!(gpu.core_clock, Some(2100));
    assert_eq!(gpu.memory_clock, Some(1000));
    assert_eq!(gpu.max_clock_speed, Some(2100));
    assert_eq!(gpu.memory_total, Some(16368));
    assert_eq!(gpu.active, Some(true));
    assert!(matches!(
        provider.probe_amd_card(&amd_readings(0x10de)),
        Err(GpuError::GpuNotFound)
    ));
}

#[test]
fn amd_name_and_utilization_fallbacks() {
    assert_eq!(
        AmdLinuxProvider::get_gpu_name(Some(" Radeon RX 7900 XTX\n"), Some("0x1")),
        "Radeon RX 7900 XTX"
    );
    assert_eq!(AmdLinuxProvider::get_gpu_name(None, None), "AMD GPU");
    let hwmon = vec![
        ("nvme\n".to_string(), "12".to_string()),
        ("amdgpu\n".to_string(), "37\n".to_string()),
    ];
    assert_eq!(AmdLinuxProvider::get_gpu_utilization(&[], &hwmon), Some(37));
    assert_eq!(
        AmdLinuxProvider::get_gpu_utilization(&["55".to_string()], &hwmon),
        Some(55)
    );
    assert_eq!(AmdLinuxProvider::get_gpu_utilization(&[], &[]), None);
}

#[test]
fn intel_card_record_from_sysfs_readings() {
    let readings = IntelCardReadings {
        vendor_id: 0x8086,
        device_id: Some(0x9a49),
        subsystem_device: Some("0x3f1a\n".to_string()),
        module_version: None,
        proc_version: Some("Linux version 6.5.0-14-generic (buildd@lcy02)".to_string()),
        core_freqs: vec!["bad".to_string(), "1300".to_string()],
        memory_freqs: vec![],
        max_freqs: vec!["1350\n".to_string()],
    };
    let gpu = IntelLinuxProvider::new().probe_intel_card(&readings).ok().unwrap();
    assert_eq!(gpu.vendor, Vendor::Intel(IntelGpuType::Integrated));
    assert_eq!(
        gpu.name_gpu.as_deref(),
        Some("Intel GPU (Device ID: 0x9a49, 0x3f1a)")
    );
    assert_eq!(
        gpu.driver_version.as_deref(),
        Some("i915 (kernel 6.5.0-14-generic)")
    );
    assert_eq!(gpu.core_clock, Some(1300));
    assert_eq!(gpu.memory_clock, None);
    assert_eq!(gpu.max_clock_speed, Some(1350));
    assert_eq!(IntelLinuxProvider::get_gpu_name(Some(0x46), None), "Intel GPU (Device ID: 0x0046)");
    assert_eq!(IntelLinuxProvider::get_gpu_name(None, Some("x")), "Intel GPU");
}

#[test]
fn intel_card_numbers() {
    assert_eq!(IntelLinuxProvider::get_card_number("card1"), Some(1));
    assert_eq!(IntelLinuxProvider::get_card_number("card"), None);
    assert_eq!(IntelLinuxProvider::get_card_number("renderD128"), None);
    assert_eq!(IntelLinuxProvider::get_card_number("cardcard3"), Some(3));
}

fn nvml_readings(handle_status: i32, memory_status: i32) -> NvmlDeviceReadings {
    NvmlDeviceReadings {
        handle_status,
        name_status: 0,
        name_buffer: b"NVIDIA GeForce RTX 3080\0\0\0".to_vec(),
        clock_status: 3,
        clock_mhz: 1710,
        memory_status,
        memory_total_bytes: 10 * 1024 * 1024 * 1024,
        memory_used_bytes: 512 * 1024 * 1024,
    }
}

#[test]
fn nvml_readings_make_the_nvidia_record() {
    let provider = NvidiaLinuxProvider::new();
    let gpus = provider.detect_gpus(Some(&nvml_readings(0, 0))).ok().unwrap();
    assert_eq!(gpus.len(), 1);
    assert_eq!(gpus[0].name_gpu.as_deref(), Some("NVIDIA GeForce RTX 3080"));
    assert_eq!(gpus[0].core_clock, None);
    assert_eq!(gpus[0].memory_total, Some(10240));
    assert_eq!(gpus[0].memory_used, Some(512));
    let mut failed_name = nvml_readings(0, 0);
    failed_name.name_status = 1;
    let unnamed = NvidiaLinuxProvider::nvml_record(&failed_name).ok().unwrap();
    assert_eq!(unnamed.name_gpu.as_deref(), Some("NVIDIA GPU"));
    let no_memory = NvidiaLinuxProvider::nvml_record(&nvml_readings(0, 1)).ok().unwrap();
    assert_eq!(no_memory.memory_total, None);
    assert!(matches!(
        provider.detect_gpus(Some(&nvml_readings(2, 0))),
        Err(GpuError::GpuNotFound)
    ));
    assert!(matches!(
        provider.detect_gpus(None),
        Err(GpuError::DriverNotInstalled)
    ));
    assert_eq!(
        NvidiaLinuxProvider::nvml_library_path(None),
        "/usr/lib/libnvidia-ml.so.1"
    );
    assert_eq!(
        NvidiaLinuxProvider::nvml_library_path(Some("/opt/nvml.so")),
        "/opt/nvml.so"
    );
}
