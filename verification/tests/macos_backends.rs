use gpu_info::gpu_info::GpuRecord;
use gpu_info::providers::macos::backends::iokit::{io_service_is_valid, IOKitBackend, PciInfo};
use gpu_info::providers::macos::backends::metal::MetalBackend;
use gpu_info::providers::macos::backends::powermetrics::PowerMetricsBackend;
use gpu_info::providers::macos::backends::system_profiler::SystemProfilerBackend;
use gpu_info::vendor::{IntelGpuType, Vendor};

#[test]
fn test_pci_info_creation() {
    let pci = PciInfo::new(0, 2, 0, 0x10DE, 0x1F82);
    assert_eq!(pci.bus, 0);
    assert_eq!(pci.device, 2);
    assert_eq!(pci.function, 0);
    assert_eq!(pci.vendor_id, 0x10DE);
    assert_eq!(pci.device_id, 0x1F82);
}

#[test]
fn test_pci_info_vendor_nvidia() {
    let pci = PciInfo::new(0, 0, 0, 0x10DE, 0x0000);
    assert_eq!(pci.vendor(), Vendor::Nvidia);
}

#[test]
fn test_pci_info_vendor_amd() {
    let pci = PciInfo::new(0, 0, 0, 0x1002, 0x0000);
    assert_eq!(pci.vendor(), Vendor::Amd);
}

#[test]
fn test_pci_info_vendor_intel() {
    let pci = PciInfo::new(0, 0, 0, 0x8086, 0x0000);
    assert_eq!(pci.vendor(), Vendor::Intel(IntelGpuType::Unknown));
}

#[test]
fn test_pci_info_vendor_apple() {
    let pci = PciInfo::new(0, 0, 0, 0x106B, 0x0000);
    assert_eq!(pci.vendor(), Vendor::Apple);
}

#[test]
fn test_pci_info_vendor_unknown() {
    let pci = PciInfo::new(0, 0, 0, 0xFFFF, 0x0000);
    assert_eq!(pci.vendor(), Vendor::Unknown);
}

#[test]
fn test_iokit_creation() {
    let result = IOKitBackend::new();
    assert!(result.is_ok());
}

#[test]
fn test_iokit_default() {
    let _backend = IOKitBackend::default();
}

#[test]
fn test_iokit_detect_gpus_no_panic() {
    let backend = IOKitBackend::new().expect("Failed to create backend");
    let result = backend.detect_gpus();
    assert!(result.is_ok());
}

#[test]
fn test_iokit_update_gpu_no_panic() {
    let backend = IOKitBackend::new().expect("Failed to create backend");
    let mut gpu = GpuRecord::unknown();
    let result = backend.update_gpu(&mut gpu);
    assert!(result.is_ok());
}

#[test]
fn iokit_pci_record_names_the_device() {
    let backend = IOKitBackend::new().expect("Failed to create backend");
    let gpu = backend.create_gpu_info_from_pci(&PciInfo::new(1, 0, 0, 0x1002, 0x73BF));
    assert_eq!(gpu.vendor, Vendor::Amd);
    assert!(gpu.name_gpu.is_some());
    assert!(io_service_is_valid(7));
    assert!(!io_service_is_valid(0));
}

#[test]
fn test_metal_backend_creation() {
    let result = MetalBackend::new();
    assert!(result.is_ok());
}

#[test]
fn test_metal_detect_gpus_no_panic() {
    let backend = MetalBackend::new().expect("Failed to create backend");
    let result = backend.detect_gpus();
    assert!(result.is_ok());
}

#[test]
fn test_metal_update_gpu_no_panic() {
    let backend = MetalBackend::new().expect("Failed to create backend");
    let mut gpu = GpuRecord::unknown();
    let result = backend.update_gpu(&mut gpu);
    assert!(result.is_ok());
}

#[test]
fn test_powermetrics_creation() {
    let backend = PowerMetricsBackend::new();
    let _ = backend;
}

#[test]
fn test_is_available() {
    let backend = PowerMetricsBackend::new();
    let _ = backend.is_available(None);
    assert!(backend.is_available(Some(true)));
    assert!(!backend.is_available(Some(false)));
    assert!(!backend.is_available(None));
}

#[test]
fn test_backend_creation() {
    let backend = SystemProfilerBackend::new();
    let _ = backend;
}

#[test]
fn system_profiler_test_default() {
    let backend = SystemProfilerBackend::default();
    let _ = backend;
}

#[test]
fn metal_free_memory_saturates() {
    assert_eq!(gpu_info::providers::macos::backends::metal::free_memory(10_000_000_000, 6_000_000_000), 4_000_000_000);
    assert_eq!(gpu_info::providers::macos::backends::metal::free_memory(10_000_000_000, 12_000_000_000), 0);
    assert_eq!(gpu_info::providers::macos::backends::metal::free_memory(5, 5), 0);
}

#[test]
fn test_iokit_disabled_returns_error() {
    let result = IOKitBackend::for_build(false);
    assert!(result.is_err());
}

#[test]
fn test_metal_disabled_returns_error() {
    let result = MetalBackend::for_build(false);
    assert!(result.is_err());

    if let Err(e) = result {
        assert!(matches!(e, gpu_info::gpu_info::GpuError::FeatureNotEnabled(_)));
    }
}

#[test]
fn backends_built_with_their_feature_start() {
    assert!(IOKitBackend::for_build(true).is_ok());
    assert!(MetalBackend::for_build(true).is_ok());
    assert!(matches!(
        IOKitBackend::for_build(false),
        Err(gpu_info::gpu_info::GpuError::DriverNotInstalled)
    ));
}
