//! Builder of macOS provider configurations.
use vstd::prelude::*;
use std::time::Duration;
use super::config::{MacosBackend, MacosConfig, is_default_config};

verus! {

/// Builder that collects the configuration of a macOS provider with method
/// chaining; every option starts at its default.
#[derive(Debug, Clone)]
pub struct MacosProviderBuilder {
    /// The configuration being built.
    pub config: MacosConfig,
}

impl MacosProviderBuilder {
    /// A builder holding the default configuration.
    pub fn new() -> (r: Self)
        ensures
            is_default_config(r.config),
    {
        MacosProviderBuilder { config: MacosConfig::default() }
    }

    /// Sets the TTL of cached static GPU information.
    pub fn cache_ttl(self, duration: Duration) -> (r: Self)
        ensures
            r.config == (MacosConfig { cache_ttl: duration, ..self.config }),
    {
        let mut b = self;
        b.config.cache_ttl = duration;
        b
    }

    /// Sets the preferred backend.
    pub fn backend(self, backend: MacosBackend) -> (r: Self)
        ensures
            r.config == (MacosConfig { preferred_backend: backend, ..self.config }),
    {
        let mut b = self;
        b.config.preferred_backend = backend;
        b
    }

    /// Enables or disables the fallback chain.
    pub fn fallback(self, enabled: bool) -> (r: Self)
        ensures
            r.config == (MacosConfig { fallback_enabled: enabled, ..self.config }),
    {
        let mut b = self;
        b.config.fallback_enabled = enabled;
        b
    }

    /// Sets the timeout of the `system_profiler` command.
    pub fn profiler_timeout(self, duration: Duration) -> (r: Self)
        ensures
            r.config == (MacosConfig { profiler_timeout: duration, ..self.config }),
    {
        let mut b = self;
        b.config.profiler_timeout = duration;
        b
    }
}

impl Default for MacosProviderBuilder {
    /// Same as `MacosProviderBuilder::new()`.
    fn default() -> (r: Self)
        ensures
            is_default_config(r.config),
    {
        Self::new()
    }
}

} // verus!
