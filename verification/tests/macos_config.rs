use gpu_info::providers::macos::builder::MacosProviderBuilder;
use gpu_info::providers::macos::config::{BackendFeatures, MacosBackend, MacosConfig};

const BUILT: BackendFeatures = BackendFeatures { iokit: true, metal: true };
use gpu_info::providers::macos::metrics::MacosMetrics;
use gpu_info::providers::macos::router::{BackendRouter, Operation};
use std::time::Duration;

#[test]
fn test_builder_default() {
    let builder = MacosProviderBuilder::new();
    assert_eq!(builder.config.cache_ttl, Duration::from_secs(60));
    assert_eq!(builder.config.preferred_backend, MacosBackend::Hybrid);
    assert!(builder.config.fallback_enabled);
    assert_eq!(builder.config.profiler_timeout, Duration::from_secs(2));
}

#[test]
fn test_builder_chain() {
    let builder = MacosProviderBuilder::new()
        .cache_ttl(Duration::from_secs(120))
        .backend(MacosBackend::SystemProfiler)
        .fallback(false)
        .profiler_timeout(Duration::from_secs(5));

    assert_eq!(builder.config.cache_ttl, Duration::from_secs(120));
    assert_eq!(
        builder.config.preferred_backend,
        MacosBackend::SystemProfiler
    );
    assert!(!builder.config.fallback_enabled);
    assert_eq!(builder.config.profiler_timeout, Duration::from_secs(5));
}

#[test]
fn test_builder_partial_chain() {
    let builder = MacosProviderBuilder::new()
        .cache_ttl(Duration::from_secs(90))
        .backend(MacosBackend::PowerMetrics);

    assert_eq!(builder.config.cache_ttl, Duration::from_secs(90));
    assert_eq!(builder.config.preferred_backend, MacosBackend::PowerMetrics);
    assert!(builder.config.fallback_enabled);
    assert_eq!(builder.config.profiler_timeout, Duration::from_secs(2));
}

#[test]
fn test_default_trait() {
    let builder1 = MacosProviderBuilder::new();
    let builder2 = MacosProviderBuilder::default();

    assert_eq!(builder1.config.cache_ttl, builder2.config.cache_ttl);
    assert_eq!(
        builder1.config.preferred_backend,
        builder2.config.preferred_backend
    );
}

#[test]
fn builder_test_clone() {
    let builder1 = MacosProviderBuilder::new()
        .cache_ttl(Duration::from_secs(100))
        .backend(MacosBackend::SystemProfiler);

    let builder2 = builder1.clone();

    assert_eq!(builder1.config.cache_ttl, builder2.config.cache_ttl);
    assert_eq!(
        builder1.config.preferred_backend,
        builder2.config.preferred_backend
    );
}

#[test]
fn test_config_defaults() {
    let config = MacosConfig::default();
    assert_eq!(config.cache_ttl, Duration::from_secs(60));
    assert_eq!(config.preferred_backend, MacosBackend::Hybrid);
    assert!(config.fallback_enabled);
    assert_eq!(config.profiler_timeout, Duration::from_secs(2));
}

#[test]
fn test_backend_names() {
    assert_eq!(MacosBackend::SystemProfiler.name(), "system_profiler");
    assert_eq!(MacosBackend::PowerMetrics.name(), "PowerMetrics");
    assert_eq!(MacosBackend::Hybrid.name(), "Hybrid");
}

#[test]
fn test_backend_availability() {
    assert!(MacosBackend::SystemProfiler.is_available(BUILT, false));
    assert!(MacosBackend::Hybrid.is_available(BUILT, false));
}

#[test]
fn test_config_clone() {
    let config1 = MacosConfig::default();
    let config2 = config1.clone();
    assert_eq!(config1.cache_ttl, config2.cache_ttl);
    assert_eq!(config1.preferred_backend, config2.preferred_backend);
}

#[test]
fn powermetrics_availability_follows_the_probe() {
    assert!(MacosBackend::PowerMetrics.is_available(BUILT, true));
    assert!(!MacosBackend::PowerMetrics.is_available(BUILT, false));
    assert_eq!(MacosBackend::IOKit.name(), "IOKit");
    assert_eq!(MacosBackend::Metal.name(), "Metal");
}

#[test]
fn test_metrics_creation() {
    let duration = Duration::from_millis(42);
    let metrics = MacosMetrics::new(MacosBackend::SystemProfiler, duration, false, 2);

    assert_eq!(metrics.backend_used, MacosBackend::SystemProfiler);
    assert_eq!(metrics.detection_time_ms, 42);
    assert!(!metrics.cache_hit);
    assert_eq!(metrics.available_backends, 2);
}

#[test]
fn test_is_fast() {
    let fast = MacosMetrics::new(MacosBackend::Hybrid, Duration::from_millis(10), false, 3);
    let slow = MacosMetrics::new(
        MacosBackend::SystemProfiler,
        Duration::from_millis(600),
        false,
        3,
    );

    assert!(fast.is_fast());
    assert!(!slow.is_fast());
}

#[test]
fn test_performance_description() {
    assert_eq!(
        MacosMetrics::new(MacosBackend::Hybrid, Duration::from_millis(5), false, 3)
            .performance_description(),
        "Excellent"
    );
    assert_eq!(
        MacosMetrics::new(MacosBackend::Hybrid, Duration::from_millis(30), false, 3)
            .performance_description(),
        "Good"
    );
    assert_eq!(
        MacosMetrics::new(MacosBackend::Hybrid, Duration::from_millis(100), false, 3)
            .performance_description(),
        "Acceptable"
    );
}

#[test]
fn test_default_metrics() {
    let metrics = MacosMetrics::default();
    assert_eq!(metrics.backend_used, MacosBackend::Hybrid);
    assert_eq!(metrics.detection_time_ms, 0);
    assert!(!metrics.cache_hit);
    assert_eq!(metrics.available_backends, 1);
}

#[test]
fn metrics_test_clone() {
    let original = MacosMetrics::new(MacosBackend::PowerMetrics, Duration::from_millis(100), true, 4);
    let cloned = original.clone();

    assert_eq!(original.backend_used, cloned.backend_used);
    assert_eq!(original.detection_time_ms, cloned.detection_time_ms);
    assert_eq!(original.cache_hit, cloned.cache_hit);
    assert_eq!(original.available_backends, cloned.available_backends);
}

#[test]
fn test_router_creation() {
    let config = MacosConfig::default();
    let router = BackendRouter::new(config, BUILT, false);

    assert!(!router.available_backends().is_empty());
    assert!(router.is_backend_available(MacosBackend::SystemProfiler));
}

#[test]
fn test_select_backend_with_hybrid() {
    let config = MacosConfig {
        preferred_backend: MacosBackend::Hybrid,
        ..Default::default()
    };
    let router = BackendRouter::new(config, BUILT, false);

    let detection = router.select_backend(Operation::DetectGpu);
    let metrics = router.select_backend(Operation::GetDynamicMetrics);

    assert!(router.is_backend_available(detection));
    assert!(router.is_backend_available(metrics));
}

#[test]
fn test_available_count() {
    let router = BackendRouter::new(MacosConfig::default(), BUILT, false);
    let count = router.available_count();
    assert!(count >= 1);
}

#[test]
fn test_backend_selection_consistency() {
    let router = BackendRouter::new(MacosConfig::default(), BUILT, false);

    let backend1 = router.select_backend(Operation::DetectGpu);
    let backend2 = router.select_backend(Operation::DetectGpu);

    assert_eq!(backend1, backend2);
}

#[test]
fn router_selects_only_available_backends() {
    for found in [false, true] {
        for preferred in [
            MacosBackend::IOKit,
            MacosBackend::Metal,
            MacosBackend::PowerMetrics,
            MacosBackend::SystemProfiler,
            MacosBackend::Hybrid,
        ] {
            let config = MacosConfig {
                preferred_backend: preferred,
                ..Default::default()
            };
            let router = BackendRouter::new(config, BUILT, found);
            for op in [
                Operation::DetectGpu,
                Operation::GetDynamicMetrics,
                Operation::GetStaticInfo,
                Operation::GetTemperature,
            ] {
                let chosen = router.select_backend(op);
                assert!(router.is_backend_available(chosen));
            }
        }
    }
    let with_pm = BackendRouter::new(MacosConfig::default(), BUILT, true);
    assert!(with_pm.is_backend_available(MacosBackend::PowerMetrics));
    let without_pm = BackendRouter::new(MacosConfig::default(), BUILT, false);
    assert!(!without_pm.is_backend_available(MacosBackend::PowerMetrics));
}

#[test]
fn routing_without_the_optional_backends() {
    let none = BackendFeatures { iokit: false, metal: false };
    assert!(!MacosBackend::IOKit.is_available(none, true));
    assert!(!MacosBackend::Metal.is_available(none, true));
    assert!(MacosBackend::IOKit.is_available(BUILT, false));
    let router = BackendRouter::new(MacosConfig::default(), none, false);
    assert_eq!(router.available_backends(), &[MacosBackend::SystemProfiler]);
    assert_eq!(router.select_backend(Operation::DetectGpu), MacosBackend::SystemProfiler);
    assert_eq!(router.select_backend(Operation::GetTemperature), MacosBackend::SystemProfiler);
    let metal_only = BackendRouter::new(
        MacosConfig::default(),
        BackendFeatures { iokit: false, metal: true },
        true,
    );
    assert_eq!(
        metal_only.available_backends(),
        &[MacosBackend::Metal, MacosBackend::PowerMetrics, MacosBackend::SystemProfiler]
    );
    assert_eq!(metal_only.select_backend(Operation::GetTemperature), MacosBackend::Metal);
    assert_eq!(metal_only.select_backend(Operation::DetectGpu), MacosBackend::SystemProfiler);
}
