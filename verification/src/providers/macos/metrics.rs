//! Performance metrics of macOS GPU operations.
use vstd::prelude::*;
use std::time::Duration;
use crate::time::duration_nanos;
use super::config::MacosBackend;

verus! {

/// Which backend served an operation, how long it took and whether the
/// result came from the cache.
#[derive(Debug, Clone)]
pub struct MacosMetrics {
    /// The backend used for the operation.
    pub backend_used: MacosBackend,
    /// Time taken by GPU detection, in milliseconds.
    pub detection_time_ms: u64,
    /// Whether the result was served from the cache.
    pub cache_hit: bool,
    /// Number of backends available on the system.
    pub available_backends: u8,
}

/// The description of a detection time: up to 10 ms "Excellent", up to 50
/// "Good", up to 200 "Acceptable", up to 500 "Slow", beyond "Very Slow".
pub open spec fn performance_description_spec(ms: u64) -> Seq<char> {
    if ms <= 10 {
        "Excellent"@
    } else if ms <= 50 {
        "Good"@
    } else if ms <= 200 {
        "Acceptable"@
    } else if ms <= 500 {
        "Slow"@
    } else {
        "Very Slow"@
    }
}

impl MacosMetrics {
    /// Metrics of an operation that took `duration`; the time is kept in
    /// whole milliseconds.
    pub fn new(
        backend_used: MacosBackend,
        duration: Duration,
        cache_hit: bool,
        available_backends: u8,
    ) -> (r: Self)
        ensures
            r.backend_used == backend_used,
            r.detection_time_ms == (duration_nanos(duration) / 1_000_000) as u64,
            r.cache_hit == cache_hit,
            r.available_backends == available_backends,
    {
        MacosMetrics {
            backend_used,
            detection_time_ms: duration.as_millis() as u64,
            cache_hit,
            available_backends,
        }
    }

    /// Whether the operation took less than 50 ms.
    pub fn is_fast(&self) -> (r: bool)
        ensures
            r == (self.detection_time_ms < 50),
    {
        self.detection_time_ms < 50
    }

    /// A human-readable description of the detection time.
    pub fn performance_description(&self) -> (r: &'static str)
        ensures
            r@ == performance_description_spec(self.detection_time_ms),
    {
        if self.detection_time_ms <= 10 {
            "Excellent"
        } else if self.detection_time_ms <= 50 {
            "Good"
        } else if self.detection_time_ms <= 200 {
            "Acceptable"
        } else if self.detection_time_ms <= 500 {
            "Slow"
        } else {
            "Very Slow"
        }
    }
}

impl Default for MacosMetrics {
    /// `Hybrid`, 0 ms, no cache hit, one available backend.
    fn default() -> (r: Self)
        ensures
            r.backend_used == MacosBackend::Hybrid,
            r.detection_time_ms == 0,
            !r.cache_hit,
            r.available_backends == 1,
    {
        MacosMetrics {
            backend_used: MacosBackend::Hybrid,
            detection_time_ms: 0,
            cache_hit: false,
            available_backends: 1,
        }
    }
}

} // verus!
