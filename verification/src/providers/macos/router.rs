//! Selection of the backend that serves each kind of GPU operation.
use vstd::prelude::*;
use super::config::{BackendFeatures, MacosBackend, MacosConfig, backend_available_spec};

verus! {

/// Kind of GPU operation.
#[derive(Debug, Clone, Copy, PartialEq, Eq, Structural)]
pub enum Operation {
    /// Detect GPUs in the system.
    DetectGpu,
    /// Read dynamic metrics (utilization, temperature, ...).
    GetDynamicMetrics,
    /// Read static information (name, vendor, memory).
    GetStaticInfo,
    /// Read the temperature.
    GetTemperature,
}

/// The backends found on a system, in order: IOKit and Metal (each when
/// built with it), PowerMetrics (when the tool was found), SystemProfiler.
pub open spec fn detected_backends_spec(
    features: BackendFeatures,
    powermetrics_found: bool,
) -> Seq<MacosBackend> {
    let a: Seq<MacosBackend> = if features.iokit {
        seq![MacosBackend::IOKit]
    } else {
        seq![]
    };
    let b: Seq<MacosBackend> = if features.metal {
        a.push(MacosBackend::Metal)
    } else {
        a
    };
    let c: Seq<MacosBackend> = if powermetrics_found {
        b.push(MacosBackend::PowerMetrics)
    } else {
        b
    };
    c.push(MacosBackend::SystemProfiler)
}

/// Backend for detection and static information: IOKit, else SystemProfiler.
pub open spec fn select_for_detection_spec(avail: Seq<MacosBackend>) -> MacosBackend {
    if avail.contains(MacosBackend::IOKit) {
        MacosBackend::IOKit
    } else {
        MacosBackend::SystemProfiler
    }
}

/// Backend for dynamic metrics: Metal, else PowerMetrics, else SystemProfiler.
pub open spec fn select_for_metrics_spec(avail: Seq<MacosBackend>) -> MacosBackend {
    if avail.contains(MacosBackend::Metal) {
        MacosBackend::Metal
    } else if avail.contains(MacosBackend::PowerMetrics) {
        MacosBackend::PowerMetrics
    } else {
        MacosBackend::SystemProfiler
    }
}

/// Backend for temperature: IOKit, else Metal, else PowerMetrics, else
/// SystemProfiler.
pub open spec fn select_for_temperature_spec(avail: Seq<MacosBackend>) -> MacosBackend {
    if avail.contains(MacosBackend::IOKit) {
        MacosBackend::IOKit
    } else if avail.contains(MacosBackend::Metal) {
        MacosBackend::Metal
    } else if avail.contains(MacosBackend::PowerMetrics) {
        MacosBackend::PowerMetrics
    } else {
        MacosBackend::SystemProfiler
    }
}

/// The backend chosen for `op`: the preferred backend when it is not
/// `Hybrid` and is available or fallback is disabled; otherwise the best
/// available backend for the kind of operation.
pub open spec fn select_backend_spec(
    config: MacosConfig,
    avail: Seq<MacosBackend>,
    op: Operation,
) -> MacosBackend {
    let pref = config.preferred_backend;
    if pref != MacosBackend::Hybrid && (avail.contains(pref) || !config.fallback_enabled) {
        pref
    } else {
        match op {
            Operation::DetectGpu | Operation::GetStaticInfo => select_for_detection_spec(avail),
            Operation::GetDynamicMetrics => select_for_metrics_spec(avail),
            Operation::GetTemperature => select_for_temperature_spec(avail),
        }
    }
}

/// Router that picks, for each operation, the backend to use.
pub struct BackendRouter {
    available_backends: Vec<MacosBackend>,
    config: MacosConfig,
}

impl BackendRouter {
    /// The backends found on the system.
    pub closed spec fn available(&self) -> Seq<MacosBackend> {
        self.available_backends@
    }

    /// The configuration the router follows.
    pub closed spec fn configuration(&self) -> MacosConfig {
        self.config
    }

    /// At most the four detectable backends are available.
    #[verifier::type_invariant]
    closed spec fn wf(&self) -> bool {
        self.available_backends@.len() <= 4
    }

    /// Creates a router for `config`, where `features` tells which optional
    /// backends were built and `powermetrics_found` whether the
    /// `powermetrics` command exists.
    pub fn new(config: MacosConfig, features: BackendFeatures, powermetrics_found: bool) -> (r:
        Self)
        ensures
            r.available() == detected_backends_spec(features, powermetrics_found),
            r.configuration() == config,
    {
        let available_backends = Self::detect_available_backends(features, powermetrics_found);
        BackendRouter { available_backends, config }
    }

    /// The backends available on a system: IOKit and Metal when built with
    /// them, PowerMetrics when the tool was found, and SystemProfiler.
    pub fn detect_available_backends(features: BackendFeatures, powermetrics_found: bool) -> (r:
        Vec<MacosBackend>)
        ensures
            r@ == detected_backends_spec(features, powermetrics_found),
            r@.len() <= 4,
            forall|i: int|
                0 <= i < r@.len() ==> backend_available_spec(
                    r@[i],
                    features,
                    powermetrics_found,
                ),
    {
        let mut backends: Vec<MacosBackend> = Vec::new();
        if MacosBackend::IOKit.is_available(features, powermetrics_found) {
            backends.push(MacosBackend::IOKit);
        }
        if MacosBackend::Metal.is_available(features, powermetrics_found) {
            backends.push(MacosBackend::Metal);
        }
        if MacosBackend::PowerMetrics.is_available(features, powermetrics_found) {
            backends.push(MacosBackend::PowerMetrics);
        }
        backends.push(MacosBackend::SystemProfiler);
        assert(backends@ =~= detected_backends_spec(features, powermetrics_found));
        backends
    }

    /// The backend to use for `operation`.
    pub fn select_backend(&self, operation: Operation) -> (r: MacosBackend)
        ensures
            r == select_backend_spec(self.configuration(), self.available(), operation),
    {
        let pref = self.config.preferred_backend;
        if pref != MacosBackend::Hybrid {
            if self.is_backend_available(pref) {
                return pref;
            }
            if !self.config.fallback_enabled {
                return pref;
            }
        }
        match operation {
            Operation::DetectGpu | Operation::GetStaticInfo => self.select_for_detection(),
            Operation::GetDynamicMetrics => self.select_for_metrics(),
            Operation::GetTemperature => self.select_for_temperature(),
        }
    }

    fn select_for_detection(&self) -> (r: MacosBackend)
        ensures
            r == select_for_detection_spec(self.available()),
    {
        if self.is_backend_available(MacosBackend::IOKit) {
            return MacosBackend::IOKit;
        }
        MacosBackend::SystemProfiler
    }

    fn select_for_metrics(&self) -> (r: MacosBackend)
        ensures
            r == select_for_metrics_spec(self.available()),
    {
        if self.is_backend_available(MacosBackend::Metal) {
            return MacosBackend::Metal;
        }
        if self.is_backend_available(MacosBackend::PowerMetrics) {
            return MacosBackend::PowerMetrics;
        }
        MacosBackend::SystemProfiler
    }

    fn select_for_temperature(&self) -> (r: MacosBackend)
        ensures
            r == select_for_temperature_spec(self.available()),
    {
        if self.is_backend_available(MacosBackend::IOKit) {
            return MacosBackend::IOKit;
        }
        if self.is_backend_available(MacosBackend::Metal) {
            return MacosBackend::Metal;
        }
        if self.is_backend_available(MacosBackend::PowerMetrics) {
            return MacosBackend::PowerMetrics;
        }
        MacosBackend::SystemProfiler
    }

    /// Whether `backend` is among the available backends.
    pub fn is_backend_available(&self, backend: MacosBackend) -> (r: bool)
        ensures
            r == self.available().contains(backend),
    {
        let mut i: usize = 0;
        while i < self.available_backends.len()
            invariant
                i <= self.available_backends@.len(),
                forall|k: int| 0 <= k < i ==> self.available_backends@[k] != backend,
            decreases self.available_backends@.len() - i,
        {
            if self.available_backends[i] == backend {
                assert(self.available_backends@[i as int] == backend);
                return true;
            }
            i = i + 1;
        }
        false
    }

    /// All available backends.
    pub fn available_backends(&self) -> (r: &[MacosBackend])
        ensures
            r@ == self.available(),
    {
        self.available_backends.as_slice()
    }

    /// The number of available backends.
    pub fn available_count(&self) -> (r: u8)
        ensures
            r as nat == self.available().len(),
    {
        proof {
            use_type_invariant(self);
        }
        self.available_backends.len() as u8
    }
}

/// A router built by `BackendRouter::new` selects, for every operation, an
/// available backend unless the preferred backend is missing while fallback
/// is disabled: with a `Hybrid` preference, with fallback enabled, or with an
/// available preferred backend, the choice is always available.
pub proof fn lemma_selected_backend_available(
    config: MacosConfig,
    features: BackendFeatures,
    powermetrics_found: bool,
    op: Operation,
)
    requires
        config.preferred_backend == MacosBackend::Hybrid || config.fallback_enabled
            || detected_backends_spec(features, powermetrics_found).contains(
            config.preferred_backend,
        ),
    ensures
        detected_backends_spec(features, powermetrics_found).contains(
            select_backend_spec(config, detected_backends_spec(features, powermetrics_found), op),
        ),
{
    let avail = detected_backends_spec(features, powermetrics_found);
    assert(avail[avail.len() - 1] == MacosBackend::SystemProfiler);
}

} // verus!
