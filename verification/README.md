# gpu_info

GPU information across vendors and platforms. `src/` is the verified
library: parsing of sysfs, `system_profiler` and WMI text, GPU records built
from NVML, ADL and sysfs readings, backend routing, caches with a
time-to-live, the GPU roster and the decisions of the monitoring loop, each
with its contract proved by Verus. `app/` is the platform layer around it:
file and command I/O, dynamic loading of vendor libraries, threads, locks,
async entry points and the floating-point readings (temperature,
utilization, power).

## Design notes

- **Provider registry.** `provider_manager::GpuProviderManager` keeps its
  registrations in a `Vec<(Vendor, P)>` with the invariant that no vendor
  occurs twice, where a hash map keyed by vendor could stand. vstd states
  the behaviour of `HashMap` only for key types with `obeys_key_model`,
  which it grants to integer keys; `Vendor` is an enum that carries data
  (`Intel(IntelGpuType)`), so a map keyed by it would come with no usable
  contract. The vector keeps registration order, which the contracts state;
  the order of a hash map is left unspecified.
- **Named cache.** `providers::macos::cache::GpuCache` is keyed by GPU name
  and holds its entries in a `Vec` with distinct names for the same reason
  (`String` keys have no key model in vstd). The index-keyed
  `MultiGpuInfoCache` uses `HashMap<usize, _>`.
- **Clock.** Whether a cache entry is still fresh depends on the clock,
  about which nothing is stated. Each cache therefore has a `get_with_age`
  (and `GpuCache` a `get_or_compute_with_age`) whose result is exact for a
  given age; `get` and `get_or_compute` read the entry's age from the clock
  and hand it over.
- **Build features and platform.** Which optional macOS backends a build
  has (IOKit, Metal) is a `BackendFeatures` value handed to the router,
  the backends (`for_build`) and the provider, so the contracts cover builds
  with and without them. Likewise the provider that refreshes a GPU is
  chosen by `gpu_manager::update_route` from a `Platform` value.
- **Case of names.** Vendor keywords are matched after lowering ASCII
  letters; the keywords are all ASCII, so other characters do not matter.
- **Intel GPUs on Windows.** The Windows Intel provider has three tiers:
  the WMI description, the Intel Metrics Discovery (MD) API and PDH
  counters. The decisions of the MD tier are in
  `providers::windows::intel_md`: which driver directory holds the API,
  what a status code stands for, which metric of the device's groups and
  sets is wanted (`find_metric_index`), the steps of reading it through an
  I/O stream as a state machine (`md_start`, `md_step`), which calculated
  value is the reading (`pick_calculated_metric`) and how the clocks it
  gives update a GPU (`apply_md_readings`). `app/intel_md.rs` loads
  `igdmd64.dll`, calls through its interfaces and hands back each outcome.
  The PDH tier's counter paths and the splitting of an expanded path list
  are in `providers::windows::pdh`; `app/pdh.rs` calls `pdh.dll` and sums
  the counter values, which are floating point.
- **Well-formedness.** `GpuManager` (its primary index names one of its
  GPUs) and `GpuProviderManager` (no vendor registered twice) carry their
  invariants as type invariants, so their methods ask nothing of callers.

## Limitations

- Temperature, power, utilization and memory utilization are floating
  point and stay in `app/`; the library decides which value is the reading
  but does not hold the reading itself.
- `app/` is type-checked on every platform; the Windows and macOS paths run
  only there.
