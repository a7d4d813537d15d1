//! Configuration and backend kinds of the macOS provider.
use vstd::prelude::*;
use std::time::Duration;
use crate::time::duration_nanos;

verus! {

/// Configuration of the macOS GPU provider.
#[derive(Debug, Clone)]
pub struct MacosConfig {
    /// How long cached static GPU information stays valid (default 60 s).
    pub cache_ttl: Duration,
    /// Backend to use for GPU operations (default `Hybrid`).
    pub preferred_backend: MacosBackend,
    /// Whether other backends are tried when the preferred one is missing
    /// (default `true`).
    pub fallback_enabled: bool,
    /// Timeout for the `system_profiler` command (default 2 s).
    pub profiler_timeout: Duration,
}

/// The default configuration: 60 s cache TTL, `Hybrid`, fallback enabled,
/// 2 s profiler timeout.
pub open spec fn is_default_config(c: MacosConfig) -> bool {
    &&& duration_nanos(c.cache_ttl) == 60_000_000_000
    &&& c.preferred_backend == MacosBackend::Hybrid
    &&& c.fallback_enabled
    &&& duration_nanos(c.profiler_timeout) == 2_000_000_000
}

impl Default for MacosConfig {
    fn default() -> (r: Self)
        ensures
            is_default_config(r),
    {
        MacosConfig {
            cache_ttl: Duration::from_secs(60),
            preferred_backend: MacosBackend::Hybrid,
            fallback_enabled: true,
            profiler_timeout: Duration::from_secs(2),
        }
    }
}

/// Backends available for macOS GPU detection.
#[non_exhaustive]
#[derive(Debug, Clone, Copy, PartialEq, Eq, Hash, Structural)]
pub enum MacosBackend {
    /// IOKit: fast PCI device detection and static information (1-10 ms).
    IOKit,
    /// Metal: real-time GPU metrics (1-5 ms).
    Metal,
    /// The `powermetrics` command-line tool (~100 ms).
    PowerMetrics,
    /// The `system_profiler` command (500-1000 ms), always present.
    SystemProfiler,
    /// Automatic selection of the best available backend.
    Hybrid,
}

/// The name of a backend.
pub open spec fn backend_name_spec(b: MacosBackend) -> Seq<char> {
    match b {
        MacosBackend::IOKit => "IOKit"@,
        MacosBackend::Metal => "Metal"@,
        MacosBackend::PowerMetrics => "PowerMetrics"@,
        MacosBackend::SystemProfiler => "system_profiler"@,
        MacosBackend::Hybrid => "Hybrid"@,
    }
}

/// Which optional backends the library was built with: IOKit (the
/// `macos-iokit` build feature) and Metal (the `macos-metal` build feature).
#[derive(Debug, Clone, Copy, PartialEq, Eq, Structural)]
pub struct BackendFeatures {
    /// Built with the IOKit backend.
    pub iokit: bool,
    /// Built with the Metal backend.
    pub metal: bool,
}

/// Whether backend `b` is available, given the build features and whether
/// the `powermetrics` tool was found: IOKit and Metal when built with them,
/// `PowerMetrics` when the tool was found, the others always.
pub open spec fn backend_available_spec(
    b: MacosBackend,
    features: BackendFeatures,
    powermetrics_found: bool,
) -> bool {
    match b {
        MacosBackend::IOKit => features.iokit,
        MacosBackend::Metal => features.metal,
        MacosBackend::PowerMetrics => powermetrics_found,
        _ => true,
    }
}

impl MacosBackend {
    /// A human-readable name for the backend.
    pub fn name(&self) -> (r: &'static str)
        ensures
            r@ == backend_name_spec(*self),
    {
        match self {
            MacosBackend::IOKit => "IOKit",
            MacosBackend::Metal => "Metal",
            MacosBackend::PowerMetrics => "PowerMetrics",
            MacosBackend::SystemProfiler => "system_profiler",
            MacosBackend::Hybrid => "Hybrid",
        }
    }

    /// Whether this backend is available on the system, where `features`
    /// tells which optional backends were built and `powermetrics_found`
    /// whether the `powermetrics` command exists.
    pub fn is_available(&self, features: BackendFeatures, powermetrics_found: bool) -> (r: bool)
        ensures
            r == backend_available_spec(*self, features, powermetrics_found),
    {
        match self {
            MacosBackend::IOKit => features.iokit,
            MacosBackend::Metal => features.metal,
            MacosBackend::PowerMetrics => powermetrics_found,
            _ => true,
        }
    }
}

} // verus!
