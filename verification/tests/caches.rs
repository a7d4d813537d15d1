use gpu_info::cache_utils::{GpuInfoCache, MultiGpuInfoCache};
use gpu_info::gpu_info::GpuRecord;
use gpu_info::providers::macos::cache::GpuCache;
use gpu_info::providers::macos::config::{BackendFeatures, MacosBackend, MacosConfig};

const BUILT: BackendFeatures = BackendFeatures { iokit: true, metal: true };
use gpu_info::providers::macos::provider::MacosProvider;
use gpu_info::providers::macos::builder::MacosProviderBuilder;
use gpu_info::vendor::{IntelGpuType, Vendor};
use std::time::Duration;

#[test]
fn test_gpu_info_cache_creation() {
    let cache = GpuInfoCache::<GpuRecord>::new(Duration::from_secs(1));
    assert!(!cache.has_entry());
    assert_eq!(cache.get(), None);
}

#[test]
fn test_gpu_info_cache_set_and_get() {
    let mut cache = GpuInfoCache::new(Duration::from_secs(1));
    let gpu_info = GpuRecord::unknown();
    cache.set(gpu_info.clone());
    assert!(cache.has_entry());
    assert_eq!(cache.get(), Some(gpu_info));
}

#[test]
fn test_multi_gpu_info_cache_creation() {
    let cache = MultiGpuInfoCache::<GpuRecord>::new(Duration::from_secs(1));
    assert!(cache.is_empty());
    assert_eq!(cache.get(&0), None);
}

#[test]
fn test_multi_gpu_info_cache_set_and_get() {
    let mut cache = MultiGpuInfoCache::new(Duration::from_secs(1));
    let gpu_info = GpuRecord::unknown();
    cache.set(0, gpu_info.clone());
    assert!(!cache.is_empty());
    assert_eq!(cache.get(&0), Some(gpu_info));
}

#[test]
fn test_multi_gpu_info_cache_multiple_keys() {
    let mut cache = MultiGpuInfoCache::new(Duration::from_secs(1));
    let gpu_info1 = GpuRecord::write_vendor(Vendor::Nvidia);
    let gpu_info2 = GpuRecord::write_vendor(Vendor::Amd);
    cache.set(0, gpu_info1.clone());
    cache.set(1, gpu_info2.clone());
    assert_eq!(cache.len(), 2);
    assert_eq!(cache.get(&0), Some(gpu_info1));
    assert_eq!(cache.get(&1), Some(gpu_info2));
}

#[test]
fn single_cache_clear_and_age() {
    let mut cache = GpuInfoCache::new(Duration::from_secs(60));
    assert!(cache.age().is_none());
    cache.set(GpuRecord::write_vendor(Vendor::Intel(IntelGpuType::Integrated)));
    assert!(cache.age().is_some());
    cache.clear();
    assert!(!cache.has_entry());
    assert_eq!(cache.get(), None);
    let default_cache = GpuInfoCache::<GpuRecord>::default();
    assert!(!default_cache.has_entry());
}

#[test]
fn zero_ttl_caches_return_nothing() {
    let mut single = GpuInfoCache::new(Duration::from_secs(0));
    single.set(GpuRecord::unknown());
    assert!(single.has_entry());
    assert_eq!(single.get(), None);
    let mut multi = MultiGpuInfoCache::new(Duration::from_millis(0));
    multi.set(3, GpuRecord::unknown());
    assert!(multi.has_entry(&3));
    assert_eq!(multi.get(&3), None);
}

#[test]
fn multi_cache_replace_and_clear() {
    let mut cache = MultiGpuInfoCache::new(Duration::from_secs(60));
    cache.set(2, GpuRecord::write_vendor(Vendor::Nvidia));
    cache.set(2, GpuRecord::write_vendor(Vendor::Apple));
    assert_eq!(cache.len(), 1);
    assert_eq!(cache.get(&2), Some(GpuRecord::write_vendor(Vendor::Apple)));
    cache.set(5, GpuRecord::unknown());
    cache.clear_key(&2);
    assert!(!cache.has_entry(&2));
    assert!(cache.has_entry(&5));
    assert_eq!(cache.len(), 1);
    cache.clear_all();
    assert!(cache.is_empty());
    let default_cache = MultiGpuInfoCache::<GpuRecord>::default();
    assert!(default_cache.is_empty());
}

#[test]
fn test_cache_creation() {
    let cache = GpuCache::new(Duration::from_secs(30));
    assert_eq!(cache.ttl(), Duration::from_secs(30));
    assert!(cache.is_empty());
}

#[test]
fn test_cache_insert_and_get() {
    let mut cache = GpuCache::new(Duration::from_secs(60));
    let gpu = GpuRecord::default();

    cache.insert("test-gpu".to_string(), gpu.clone());
    let retrieved = cache.get("test-gpu");

    assert!(retrieved.is_some());
    assert_eq!(cache.len(), 1);
}

#[test]
fn test_cache_miss() {
    let cache = GpuCache::new(Duration::from_secs(60));
    let result = cache.get("nonexistent");
    assert!(result.is_none());
}

#[test]
fn test_cache_get_or_compute() {
    let mut cache = GpuCache::new(Duration::from_secs(60));
    let mut compute_count = 0;

    let _info1 = cache.get_or_compute("test-gpu", || {
        compute_count += 1;
        GpuRecord::default()
    });
    assert_eq!(compute_count, 1);

    let _info2 = cache.get_or_compute("test-gpu", || {
        compute_count += 1;
        GpuRecord::default()
    });
    assert_eq!(compute_count, 1);
}

#[test]
fn test_cache_clear() {
    let mut cache = GpuCache::new(Duration::from_secs(60));
    cache.insert("gpu-1".to_string(), GpuRecord::default());
    cache.insert("gpu-2".to_string(), GpuRecord::default());

    assert_eq!(cache.len(), 2);
    cache.clear();
    assert_eq!(cache.len(), 0);
}

#[test]
fn test_default_cache() {
    let cache = GpuCache::default();
    assert_eq!(cache.ttl(), Duration::from_secs(60));
}

#[test]
fn named_cache_replaces_under_the_same_name() {
    let mut cache = GpuCache::new(Duration::from_secs(60));
    cache.insert("gpu".to_string(), GpuRecord::write_vendor(Vendor::Amd));
    cache.insert("other".to_string(), GpuRecord::write_vendor(Vendor::Intel(IntelGpuType::Integrated)));
    cache.insert("gpu".to_string(), GpuRecord::write_vendor(Vendor::Nvidia));
    assert_eq!(cache.len(), 2);
    assert_eq!(cache.get("gpu"), Some(GpuRecord::write_vendor(Vendor::Nvidia)));
    assert_eq!(cache.get("other"), Some(GpuRecord::write_vendor(Vendor::Intel(IntelGpuType::Integrated))));
    cache.cleanup_expired();
    assert_eq!(cache.len(), 2);
}

#[test]
fn named_cache_with_zero_ttl() {
    let mut cache = GpuCache::new(Duration::from_secs(0));
    let mut computed = 0;
    let first = cache.get_or_compute("gpu", || {
        computed += 1;
        GpuRecord::write_vendor(Vendor::Apple)
    });
    assert_eq!(first.vendor, Vendor::Apple);
    let second = cache.get_or_compute("gpu", || {
        computed += 1;
        GpuRecord::write_vendor(Vendor::Intel(IntelGpuType::Integrated))
    });
    assert_eq!(second.vendor, Vendor::Intel(IntelGpuType::Integrated));
    assert_eq!(computed, 2);
    assert_eq!(cache.len(), 1);
    assert_eq!(cache.get("gpu"), None);
    cache.cleanup_expired();
    assert!(cache.is_empty());
}

#[test]
fn test_provider_creation() {
    let result = MacosProvider::new(BUILT, false);
    assert!(result.is_ok());
}

#[test]
fn test_provider_with_custom_config() {
    let config = MacosConfig { cache_ttl: Duration::from_secs(120), ..Default::default() };

    let result = MacosProvider::with_config(config, BUILT, false);
    assert!(result.is_ok());

    if let Ok(provider) = result {
        assert_eq!(provider.config().cache_ttl, Duration::from_secs(120));
    }
}

#[test]
fn test_available_backends() {
    let provider = MacosProvider::new(BUILT, false).expect("Failed to create provider");
    let backends = provider.available_backends();

    assert!(!backends.is_empty());
    assert!(backends.contains(&MacosBackend::SystemProfiler));
}

#[test]
fn test_is_backend_available() {
    let provider = MacosProvider::new(BUILT, false).expect("Failed to create provider");

    assert!(provider.is_backend_available(MacosBackend::SystemProfiler));
}

#[test]
fn test_clear_cache() {
    let mut provider = MacosProvider::new(BUILT, false).expect("Failed to create provider");
    provider.clear_cache();
}

#[test]
fn test_config_access() {
    let config = MacosConfig::default();
    let provider = MacosProvider::with_config(config.clone(), BUILT, false).expect("Failed to create provider");

    assert_eq!(provider.config().cache_ttl, config.cache_ttl);
    assert_eq!(provider.config().preferred_backend, config.preferred_backend);
}

#[test]
fn provider_detection_and_update() {
    let provider = MacosProviderBuilder::new()
        .backend(MacosBackend::Metal)
        .build(BUILT, true)
        .expect("Failed to create provider");
    assert_eq!(provider.detect_gpus().map(|v| v.len()).ok(), Some(0));
    let mut gpu = GpuRecord::write_vendor(Vendor::Apple);
    gpu.core_clock = Some(1398);
    assert!(provider.update_gpu(&mut gpu).is_ok());
    assert_eq!(gpu.core_clock, Some(1398));
    assert_eq!(provider.get_vendor(true), Vendor::Apple);
    assert_eq!(provider.get_vendor(false), Vendor::Unknown);
    assert!(provider.last_metrics().is_none());
    assert_eq!(provider.available_backends().len(), 4);
    let without = MacosProvider::new(BUILT, false).expect("Failed to create provider");
    assert!(!without.is_backend_available(MacosBackend::PowerMetrics));
    assert_eq!(without.available_backends().len(), 3);
}

#[test]
fn caches_read_at_a_given_age() {
    let mut single = GpuInfoCache::new(Duration::from_secs(10));
    assert_eq!(single.get_with_age(&Duration::from_secs(1)), None);
    single.set(GpuRecord::write_vendor(Vendor::Amd));
    assert_eq!(single.get_with_age(&Duration::from_secs(9)), Some(GpuRecord::write_vendor(Vendor::Amd)));
    assert_eq!(single.get_with_age(&Duration::from_secs(10)), None);
    let mut multi = MultiGpuInfoCache::new(Duration::from_millis(500));
    multi.set(1, GpuRecord::write_vendor(Vendor::Nvidia));
    assert_eq!(multi.get_with_age(&1, &Duration::from_millis(499)), Some(GpuRecord::write_vendor(Vendor::Nvidia)));
    assert_eq!(multi.get_with_age(&1, &Duration::from_millis(500)), None);
    assert_eq!(multi.get_with_age(&2, &Duration::from_millis(0)), None);
    let mut named = GpuCache::new(Duration::from_secs(60));
    named.insert("gpu".to_string(), GpuRecord::write_vendor(Vendor::Apple));
    assert_eq!(named.get_with_age("gpu", &Duration::from_secs(59)), Some(GpuRecord::write_vendor(Vendor::Apple)));
    assert_eq!(named.get_with_age("gpu", &Duration::from_secs(61)), None);
    assert_eq!(named.get_with_age("other", &Duration::from_secs(0)), None);
}

#[test]
fn get_or_compute_at_a_given_age() {
    let mut cache = GpuCache::new(Duration::from_secs(60));
    let mut calls = 0;
    let first = cache.get_or_compute_with_age("gpu", None, || {
        calls += 1;
        GpuRecord::write_vendor(Vendor::Amd)
    });
    assert_eq!(first.vendor, Vendor::Amd);
    let hit = cache.get_or_compute_with_age("gpu", Some(Duration::from_secs(59)), || {
        calls += 1;
        GpuRecord::write_vendor(Vendor::Nvidia)
    });
    assert_eq!(hit.vendor, Vendor::Amd);
    assert_eq!(calls, 1);
    let stale = cache.get_or_compute_with_age("gpu", Some(Duration::from_secs(60)), || {
        calls += 1;
        GpuRecord::write_vendor(Vendor::Nvidia)
    });
    assert_eq!(stale.vendor, Vendor::Nvidia);
    assert_eq!(calls, 2);
    assert_eq!(cache.get("gpu"), Some(GpuRecord::write_vendor(Vendor::Nvidia)));
    assert_eq!(cache.len(), 1);
}

#[test]
fn provider_without_optional_backends() {
    let none = BackendFeatures { iokit: false, metal: false };
    let provider = MacosProvider::new(none, false).expect("Failed to create provider");
    assert_eq!(provider.available_backends(), vec![MacosBackend::SystemProfiler]);
    assert_eq!(provider.detect_gpus().map(|v| v.len()).ok(), Some(0));
    let mut gpu = GpuRecord::write_vendor(Vendor::Apple);
    assert!(provider.update_gpu(&mut gpu).is_ok());
    assert_eq!(gpu, GpuRecord::write_vendor(Vendor::Apple));
}
