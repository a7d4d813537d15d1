//! The macOS provider: routes each operation to a backend, keeps a cache of
//! static GPU information and the metrics of the last operation.
use vstd::prelude::*;
use std::time::Duration;
use super::backends::iokit::IOKitBackend;
use super::backends::metal::MetalBackend;
use super::backends::powermetrics::PowerMetricsBackend;
use super::backends::system_profiler::SystemProfilerBackend;
use super::builder::MacosProviderBuilder;
use super::cache::GpuCache;
use super::config::{BackendFeatures, MacosBackend, MacosConfig, is_default_config};
use super::metrics::MacosMetrics;
use super::router::{BackendRouter, Operation, detected_backends_spec};
use crate::gpu_info::{GpuError, GpuRecord};
use crate::time::duration_nanos;
use crate::vendor::Vendor;

verus! {

/// A copy of a configuration, field by field.
fn copy_config(c: &MacosConfig) -> (r: MacosConfig)
    ensures
        r == *c,
{
    MacosConfig {
        cache_ttl: c.cache_ttl,
        preferred_backend: c.preferred_backend,
        fallback_enabled: c.fallback_enabled,
        profiler_timeout: c.profiler_timeout,
    }
}

/// GPU provider for macOS, with backend routing, fallback and a cache of
/// static GPU information.
pub struct MacosProvider {
    config: MacosConfig,
    router: BackendRouter,
    cache: GpuCache,
    last_metrics: Option<MacosMetrics>,
    system_profiler: SystemProfilerBackend,
    powermetrics: PowerMetricsBackend,
    iokit: Option<IOKitBackend>,
    metal: Option<MetalBackend>,
}

impl MacosProvider {
    /// The configuration of the provider.
    pub closed spec fn configuration(&self) -> MacosConfig {
        self.config
    }

    /// The backends the provider's router found.
    pub closed spec fn available(&self) -> Seq<MacosBackend> {
        self.router.available()
    }

    /// The records in the provider's cache.
    pub closed spec fn cached(&self) -> Map<Seq<char>, GpuRecord> {
        self.cache.stored()
    }

    /// The time-to-live of the provider's cache.
    pub closed spec fn cache_time_to_live(&self) -> Duration {
        self.cache.time_to_live()
    }

    /// The metrics of the last operation.
    pub closed spec fn metrics(&self) -> Option<MacosMetrics> {
        self.last_metrics
    }

    /// A provider with the default configuration; `features` tells which
    /// optional backends were built and `powermetrics_found` whether the
    /// `powermetrics` command exists.
    pub fn new(features: BackendFeatures, powermetrics_found: bool) -> (r: Result<Self, GpuError>)
        ensures
            r is Ok,
            r matches Ok(p) ==> {
                &&& is_default_config(p.configuration())
                &&& p.available() == detected_backends_spec(features, powermetrics_found)
                &&& p.cached() == Map::<Seq<char>, GpuRecord>::empty()
                &&& p.cache_time_to_live() == p.configuration().cache_ttl
                &&& p.metrics() is None
            },
    {
        Self::with_config(MacosConfig::default(), features, powermetrics_found)
    }

    /// A provider with configuration `config`; `features` tells which
    /// optional backends were built and `powermetrics_found` whether the
    /// `powermetrics` command exists. Its cache is empty and keeps records
    /// for `config.cache_ttl`.
    pub fn with_config(
        config: MacosConfig,
        features: BackendFeatures,
        powermetrics_found: bool,
    ) -> (r: Result<Self, GpuError>)
        ensures
            r is Ok,
            r matches Ok(p) ==> {
                &&& p.configuration() == config
                &&& p.available() == detected_backends_spec(features, powermetrics_found)
                &&& p.cached() == Map::<Seq<char>, GpuRecord>::empty()
                &&& p.cache_time_to_live() == config.cache_ttl
                &&& p.metrics() is None
            },
    {
        let router = BackendRouter::new(copy_config(&config), features, powermetrics_found);
        let cache = GpuCache::new(config.cache_ttl);
        let iokit = match IOKitBackend::for_build(features.iokit) {
            Ok(b) => Some(b),
            Err(_) => None,
        };
        let metal = match MetalBackend::for_build(features.metal) {
            Ok(b) => Some(b),
            Err(_) => None,
        };
        Ok(MacosProvider {
            config,
            router,
            cache,
            last_metrics: None,
            system_profiler: SystemProfilerBackend::new(),
            powermetrics: PowerMetricsBackend::new(),
            iokit,
            metal,
        })
    }

    /// The configuration of the provider.
    pub fn config(&self) -> (r: &MacosConfig)
        ensures
            *r == self.configuration(),
    {
        &self.config
    }

    /// The metrics of the last operation, if any.
    pub fn last_metrics(&self) -> (r: Option<&MacosMetrics>)
        ensures
            match self.metrics() {
                Some(m) => r == Some(&m),
                None => r is None,
            },
    {
        match &self.last_metrics {
            Some(m) => Some(m),
            None => None,
        }
    }

    /// The available backends.
    pub fn available_backends(&self) -> (r: Vec<MacosBackend>)
        ensures
            r@ == self.available(),
    {
        let s = self.router.available_backends();
        let mut v: Vec<MacosBackend> = Vec::new();
        let mut i: usize = 0;
        while i < s.len()
            invariant
                i <= s@.len(),
                s@ == self.available(),
                v@ == s@.take(i as int),
            decreases s@.len() - i,
        {
            v.push(s[i]);
            i = i + 1;
            assert(v@ =~= s@.take(i as int));
        }
        assert(v@ =~= s@);
        v
    }

    /// Whether `backend` is available.
    pub fn is_backend_available(&self, backend: MacosBackend) -> (r: bool)
        ensures
            r == self.available().contains(backend),
    {
        self.router.is_backend_available(backend)
    }

    /// Empties the cache of static information.
    pub fn clear_cache(&mut self)
        ensures
            final(self).cached() == Map::<Seq<char>, GpuRecord>::empty(),
            final(self).cache_time_to_live() == old(self).cache_time_to_live(),
            final(self).configuration() == old(self).configuration(),
            final(self).available() == old(self).available(),
            final(self).metrics() == old(self).metrics(),
    {
        self.cache.clear();
    }

    /// Records the metrics of an operation served by `backend_used` in
    /// `duration`; it counts as a cache hit when it took under 10 ms.
    #[allow(dead_code)]
    fn update_metrics(&mut self, backend_used: MacosBackend, duration: Duration)
        ensures
            final(self).metrics() matches Some(m) && m.backend_used == backend_used
                && m.detection_time_ms == (duration_nanos(duration) / 1_000_000) as u64
                && m.cache_hit == (duration_nanos(duration) / 1_000_000 < 10)
                && m.available_backends as nat == old(self).available().len(),
            final(self).configuration() == old(self).configuration(),
            final(self).available() == old(self).available(),
            final(self).cached() == old(self).cached(),
    {
        let cache_hit = duration.as_millis() < 10;
        let count = self.router.available_count();
        let metrics = MacosMetrics::new(backend_used, duration, cache_hit, count);
        self.last_metrics = Some(metrics);
    }

    /// Detects GPUs with `backend`. IOKit and Metal serve when present, else
    /// `system_profiler` does; it also serves every other backend.
    fn detect_gpus_with_backend(&self, backend: MacosBackend) -> (r: Result<
        Vec<GpuRecord>,
        GpuError,
    >)
        ensures
            r matches Ok(v) && v@.len() == 0,
    {
        match backend {
            MacosBackend::IOKit => {
                if let Some(iokit) = &self.iokit {
                    return iokit.detect_gpus();
                }
                self.system_profiler.detect_gpus()
            },
            MacosBackend::Metal => {
                if let Some(metal) = &self.metal {
                    return metal.detect_gpus();
                }
                self.system_profiler.detect_gpus()
            },
            MacosBackend::PowerMetrics => self.system_profiler.detect_gpus(),
            MacosBackend::SystemProfiler => self.system_profiler.detect_gpus(),
            MacosBackend::Hybrid => self.system_profiler.detect_gpus(),
        }
    }

    /// Updates `gpu` with `backend`: Metal when present, else
    /// `powermetrics`, serve Metal; `powermetrics` serves itself; the other
    /// backends give no dynamic metrics and leave `gpu` as it is.
    fn update_gpu_with_backend(&self, gpu: &mut GpuRecord, backend: MacosBackend) -> (r: Result<
        (),
        GpuError,
    >)
        ensures
            r is Ok,
            *final(gpu) == *old(gpu),
    {
        match backend {
            MacosBackend::Metal => {
                if let Some(metal) = &self.metal {
                    return metal.update_gpu(gpu);
                }
                self.powermetrics.update_gpu(gpu)
            },
            MacosBackend::PowerMetrics => self.powermetrics.update_gpu(gpu),
            _ => Ok(()),
        }
    }

    /// Detects the GPUs with the backend the router selects for detection.
    /// Every backend here reports no GPU, so the list is empty.
    pub fn detect_gpus(&self) -> (r: Result<Vec<GpuRecord>, GpuError>)
        ensures
            r matches Ok(v) && v@.len() == 0,
    {
        let backend = self.router.select_backend(Operation::DetectGpu);
        self.detect_gpus_with_backend(backend)
    }

    /// Updates `gpu` with the backend the router selects for dynamic
    /// metrics. No backend here reports a field of the record, so it stays
    /// as it is.
    pub fn update_gpu(&self, gpu: &mut GpuRecord) -> (r: Result<(), GpuError>)
        ensures
            r is Ok,
            *final(gpu) == *old(gpu),
    {
        let backend = self.router.select_backend(Operation::GetDynamicMetrics);
        self.update_gpu_with_backend(gpu, backend)
    }

    /// The vendor of the provider's GPUs: Apple on a 64-bit ARM Mac
    /// (`aarch64`), otherwise unknown.
    pub fn get_vendor(&self, aarch64: bool) -> (r: Vendor)
        ensures
            r == (if aarch64 { Vendor::Apple } else { Vendor::Unknown }),
    {
        if aarch64 {
            Vendor::Apple
        } else {
            Vendor::Unknown
        }
    }
}

impl MacosProviderBuilder {
    /// The provider this builder describes; `features` tells which optional
    /// backends were built and `powermetrics_found` whether the
    /// `powermetrics` command exists.
    pub fn build(self, features: BackendFeatures, powermetrics_found: bool) -> (r: Result<
        MacosProvider,
        GpuError,
    >)
        ensures
            r is Ok,
            r matches Ok(p) ==> {
                &&& p.configuration() == self.config
                &&& p.available() == detected_backends_spec(features, powermetrics_found)
                &&& p.cached() == Map::<Seq<char>, GpuRecord>::empty()
                &&& p.cache_time_to_live() == self.config.cache_ttl
                &&& p.metrics() is None
            },
    {
        MacosProvider::with_config(self.config, features, powermetrics_found)
    }
}

} // verus!
