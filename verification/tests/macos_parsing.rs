use gpu_info::gpu_info::GpuRecord;
use gpu_info::macos::{ClockReading, MacOSGpuProvider};
use gpu_info::vendor::Vendor;

/// The clock in MHz as the platform layer finishes it: a GHz reading is
/// converted with `f32` arithmetic.
fn clock_mhz(speed: &str) -> Option<u32> {
    match MacOSGpuProvider::parse_clock_speed(speed) {
        ClockReading::Mhz(v) => Some(v),
        ClockReading::Ghz(text) => text.parse::<f32>().ok().map(|g| (g * 1000.0) as u32),
        ClockReading::Unparsed => None,
    }
}

#[test]
fn test_macos_provider_creation() {
    let provider = MacOSGpuProvider::new();
    let default_provider = MacOSGpuProvider;
    assert_eq!(provider.get_vendor(), Vendor::Unknown);
    assert_eq!(default_provider.get_vendor(), Vendor::Unknown);
}

#[test]
fn test_macos_provider_vendor() {
    let provider = MacOSGpuProvider::new();
    assert_eq!(provider.get_vendor(), Vendor::Unknown);
}

#[test]
fn test_parse_vram_string() {
    assert_eq!(MacOSGpuProvider::parse_vram_string("4096 MB"), Some(4));
    assert_eq!(MacOSGpuProvider::parse_vram_string("8192 MB"), Some(8));
    assert_eq!(MacOSGpuProvider::parse_vram_string("512 MB"), Some(1));
    assert_eq!(MacOSGpuProvider::parse_vram_string("8 GB"), Some(8));
    assert_eq!(MacOSGpuProvider::parse_vram_string("16 GB"), Some(16));
    assert_eq!(MacOSGpuProvider::parse_vram_string("invalid"), None);
    assert_eq!(MacOSGpuProvider::parse_vram_string(""), None);
}

#[test]
fn test_parse_clock_speed() {
    assert_eq!(clock_mhz("1200 MHz"), Some(1200));
    assert_eq!(clock_mhz("2400 MHz"), Some(2400));
    assert_eq!(clock_mhz("1.5 GHz"), Some(1500));
    assert_eq!(clock_mhz("2.0 GHz"), Some(2000));
    assert_eq!(clock_mhz("invalid"), None);
    assert_eq!(clock_mhz(""), None);
}

#[test]
fn test_extract_vram_from_name() {
    assert_eq!(
        MacOSGpuProvider::extract_vram_from_name("NVIDIA GeForce RTX 3080 10GB"),
        Some(10)
    );
    assert_eq!(MacOSGpuProvider::extract_vram_from_name("AMD Radeon Pro 8GB"), Some(8));
    assert_eq!(
        MacOSGpuProvider::extract_vram_from_name("Intel Iris Plus Graphics 2gb"),
        Some(2)
    );
    assert_eq!(MacOSGpuProvider::extract_vram_from_name("Intel HD Graphics"), None);
    assert_eq!(MacOSGpuProvider::extract_vram_from_name(""), None);
}

#[test]
fn test_determine_vendor() {
    assert_eq!(
        MacOSGpuProvider::determine_vendor("NVIDIA GeForce GTX 1080"),
        Vendor::Nvidia
    );
    assert_eq!(MacOSGpuProvider::determine_vendor("AMD Radeon Pro 5500M"), Vendor::Amd);
    assert_eq!(MacOSGpuProvider::determine_vendor("Apple M1 GPU"), Vendor::Apple);
    assert_eq!(MacOSGpuProvider::determine_vendor("Unknown GPU"), Vendor::Unknown);
}

#[test]
fn test_determine_apple_gpu_info() {
    let (m3_name, m3_cores) = MacOSGpuProvider::determine_apple_gpu_info("Apple M3");
    assert!(m3_name.contains("M3"));
    assert!(m3_cores.is_some());

    let (m3_pro_name, m3_pro_cores) = MacOSGpuProvider::determine_apple_gpu_info("Apple M3 Pro");
    assert!(m3_pro_name.contains("M3 Pro"));
    assert_eq!(m3_pro_cores, Some(18));

    let (m3_max_name, m3_max_cores) = MacOSGpuProvider::determine_apple_gpu_info("Apple M3 Max");
    assert!(m3_max_name.contains("M3 Max"));
    assert_eq!(m3_max_cores, Some(40));

    let (m2_name, _) = MacOSGpuProvider::determine_apple_gpu_info("Apple M2");
    assert!(m2_name.contains("M2"));

    let (m1_name, _) = MacOSGpuProvider::determine_apple_gpu_info("Apple M1");
    assert!(m1_name.contains("M1"));

    let (unknown_name, unknown_cores) = MacOSGpuProvider::determine_apple_gpu_info("Apple Unknown");
    assert_eq!(unknown_name, "Apple Silicon GPU");
    assert_eq!(unknown_cores, None);
}

#[test]
fn test_estimate_apple_gpu_clock() {
    assert_eq!(MacOSGpuProvider::estimate_apple_gpu_clock("Apple M3"), Some(1400));
    assert_eq!(MacOSGpuProvider::estimate_apple_gpu_clock("Apple M3 Pro"), Some(1400));
    assert_eq!(MacOSGpuProvider::estimate_apple_gpu_clock("Apple M2"), Some(1300));
    assert_eq!(MacOSGpuProvider::estimate_apple_gpu_clock("Apple M1"), Some(1200));
    assert_eq!(MacOSGpuProvider::estimate_apple_gpu_clock("Apple Unknown"), Some(1000));
}

#[test]
fn test_extract_string_value() {
    assert_eq!(
        MacOSGpuProvider::extract_string_value("<string>Test Value</string>"),
        Some("Test Value".to_string())
    );
    assert_eq!(MacOSGpuProvider::extract_string_value("<int>123</int>"), None);
    assert_eq!(MacOSGpuProvider::extract_string_value(""), None);
    assert_eq!(MacOSGpuProvider::extract_string_value("Plain text"), None);
}

#[test]
fn test_update_gpu_does_not_panic() {
    let mut gpu = GpuRecord::unknown();
    let result = MacOSGpuProvider::update_gpu_info(&mut gpu);
    assert!(result.is_ok());
    assert_eq!(gpu.active, Some(true));
}

#[test]
fn test_update_gpu_preserves_existing_info() {
    let mut gpu = GpuRecord::write_vendor(Vendor::Apple);
    gpu.name_gpu = Some("Apple M1 GPU".to_string());
    gpu.memory_total = Some(8);

    let _ = MacOSGpuProvider::update_gpu_info(&mut gpu);

    assert_eq!(gpu.vendor, Vendor::Apple);
    assert_eq!(gpu.name_gpu, Some("Apple M1 GPU".to_string()));
    assert_eq!(gpu.memory_total, Some(8));
    assert_eq!(gpu.active, Some(true));
}

#[test]
fn system_profiler_report_is_parsed_into_gpus() {
    let xml = "<dict>\n<key>sppci_model</key>\n<string>AMD Radeon Pro 5500M</string>\n<key>sppci_vram</key>\n<string>8 GB</string>\n</dict>\n<dict>\n<key>sppci_model</key>\n<string>Intel UHD Graphics 630</string>\n<key>sppci_vram</key>\n<string>1536 MB</string>\n</dict>\n";
    let gpus = MacOSGpuProvider::parse_system_profiler_output(xml);
    assert_eq!(gpus.len(), 2);
    assert_eq!(gpus[0].record.vendor, Vendor::Amd);
    assert_eq!(gpus[0].record.name_gpu.as_deref(), Some("AMD Radeon Pro 5500M"));
    assert_eq!(gpus[0].record.memory_total, Some(8));
    assert_eq!(gpus[1].record.memory_total, Some(2));
    assert!(MacOSGpuProvider::parse_system_profiler_output("").is_empty());
}

#[test]
fn apple_silicon_gpu_from_command_outputs() {
    let gpu = MacOSGpuProvider::detect_apple_silicon_gpu(
        Some("arm64\n"),
        Some("Apple M2 Pro\n"),
        Some("17179869184\n"),
    )
    .unwrap();
    assert_eq!(gpu.vendor, Vendor::Apple);
    assert_eq!(gpu.memory_total, Some(16));
    assert_eq!(gpu.core_clock, Some(1300));
    assert_eq!(gpu.active, Some(true));
    assert!(MacOSGpuProvider::detect_apple_silicon_gpu(Some("x86_64"), Some("Intel(R) Core(TM) i9"), None).is_none());
    let by_brand = MacOSGpuProvider::detect_apple_silicon_gpu(None, Some("Apple M1"), None).unwrap();
    assert_eq!(by_brand.memory_total, None);
    assert_eq!(MacOSGpuProvider::get_unified_memory_size("8589934592"), Some(8));
    assert_eq!(MacOSGpuProvider::get_unified_memory_size("n/a"), None);
}

#[test]
fn detected_gpus_fall_back_to_apple_silicon() {
    let apple = GpuRecord::write_vendor(Vendor::Apple);
    let only_apple = MacOSGpuProvider::detect_all_gpus(vec![], Some(apple.clone()));
    assert_eq!(only_apple.len(), 1);
    assert_eq!(only_apple[0].vendor, Vendor::Apple);
    let mut inactive = GpuRecord::write_vendor(Vendor::Amd);
    inactive.active = Some(false);
    let reported = MacOSGpuProvider::detect_all_gpus(vec![GpuRecord::unknown(), inactive], Some(apple));
    assert_eq!(reported.len(), 2);
    assert_eq!(reported[0].active, Some(true));
    assert_eq!(reported[1].active, Some(false));
    assert!(MacOSGpuProvider::detect_all_gpus(vec![], None).is_empty());
}
