//! Intel GPU provider for Windows: the WMI description of the GPU, to which
//! the Intel Metrics Discovery API and PDH counters add their readings.
use vstd::prelude::*;
use crate::gpu_info::{GpuError, GpuRecord};
use crate::vendor::{IntelGpuType, Vendor};

verus! {

/// Intel GPU provider for Windows.
pub struct IntelWindowsProvider;

impl IntelWindowsProvider {
    /// Creates the provider.
    pub fn new() -> (r: Self) {
        IntelWindowsProvider
    }

    /// The vendor this provider serves: Intel, of a type not yet known.
    pub fn get_vendor(&self) -> (r: Vendor)
        ensures
            r == Vendor::Intel(IntelGpuType::Unknown),
    {
        Vendor::Intel(IntelGpuType::Unknown)
    }

    /// The basic description of the GPU: the first GPU that the WMI query
    /// found, `GpuNotFound` when it found none.
    pub fn get_basic_gpu_info(detected: Vec<GpuRecord>) -> (r: Result<GpuRecord, GpuError>)
        ensures
            detected@.len() > 0 ==> r == Ok::<GpuRecord, GpuError>(detected@[0]),
            detected@.len() == 0 ==> r matches Err(GpuError::GpuNotFound),
    {
        let mut detected = detected;
        if detected.len() > 0 {
            Ok(detected.remove(0))
        } else {
            Err(GpuError::GpuNotFound)
        }
    }

    /// Refreshes the basic fields of `gpu` (name, vendor, driver version,
    /// total memory, activity) from a fresh WMI description; clocks and used
    /// memory are kept.
    pub fn apply_basic_info(gpu: &mut GpuRecord, basic: GpuRecord)
        ensures
            *final(gpu) == (GpuRecord {
                name_gpu: basic.name_gpu,
                vendor: basic.vendor,
                driver_version: basic.driver_version,
                memory_total: basic.memory_total,
                active: basic.active,
                ..*old(gpu)
            }),
    {
        gpu.name_gpu = basic.name_gpu;
        gpu.vendor = basic.vendor;
        gpu.driver_version = basic.driver_version;
        gpu.memory_total = basic.memory_total;
        gpu.active = basic.active;
    }
}

impl Default for IntelWindowsProvider {
    fn default() -> (r: Self) {
        Self::new()
    }
}

/// A value the Intel Metrics Discovery API gives for a global symbol, by
/// its type.
#[derive(Debug, Clone, Copy, PartialEq, Eq, Structural)]
pub enum SymbolValue {
    /// An unsigned 32-bit value.
    Uint32(u32),
    /// An unsigned 64-bit value.
    Uint64(u64),
    /// A floating-point value, cut to its whole part.
    FloatWhole(u32),
    /// A value of another type.
    Other,
}

/// A frequency between 1 and 9999 MHz.
pub open spec fn plausible_mhz(f: u32) -> bool {
    0 < f && f < 10000
}

/// The frequency a symbol value gives: its unsigned value (a 64-bit one cut
/// to 32 bits), or its whole part when it is a float and `floats` holds,
/// when that is plausible.
pub open spec fn symbol_mhz(v: SymbolValue, floats: bool) -> Option<u32> {
    match v {
        SymbolValue::Uint32(f) => if plausible_mhz(f) {
            Some(f)
        } else {
            None
        },
        SymbolValue::Uint64(f) => if plausible_mhz(f as u32) {
            Some(f as u32)
        } else {
            None
        },
        SymbolValue::FloatWhole(f) => if floats && plausible_mhz(f) {
            Some(f)
        } else {
            None
        },
        SymbolValue::Other => None,
    }
}

/// The frequency of the first symbol, in order, that was read and gives a
/// plausible frequency.
pub open spec fn first_mhz(values: Seq<Option<SymbolValue>>, floats: bool) -> Option<u32>
    decreases values.len(),
{
    if values.len() == 0 {
        None
    } else {
        match values[0] {
            Some(v) => match symbol_mhz(v, floats) {
                Some(f) => Some(f),
                None => first_mhz(values.drop_first(), floats),
            },
            None => first_mhz(values.drop_first(), floats),
        }
    }
}

/// The frequency one symbol value gives.
fn value_mhz(v: SymbolValue, floats: bool) -> (r: Option<u32>)
    ensures
        r == symbol_mhz(v, floats),
{
    let f = match v {
        SymbolValue::Uint32(f) => f,
        SymbolValue::Uint64(f) => f as u32,
        SymbolValue::FloatWhole(f) => {
            if !floats {
                return None;
            }
            f
        },
        SymbolValue::Other => {
            return None;
        },
    };
    if 0 < f && f < 10000 {
        Some(f)
    } else {
        None
    }
}

/// The first plausible frequency among `values`.
fn first_plausible(values: &[Option<SymbolValue>], floats: bool) -> (r: Option<u32>)
    ensures
        r == first_mhz(values@, floats),
{
    let mut i: usize = 0;
    assert(values@.subrange(0, values@.len() as int) =~= values@);
    while i < values.len()
        invariant
            i <= values@.len(),
            first_mhz(values@, floats) == first_mhz(
                values@.subrange(i as int, values@.len() as int),
                floats,
            ),
        decreases values@.len() - i,
    {
        let ghost rest = values@.subrange(i as int, values@.len() as int);
        assert(rest.drop_first() =~= values@.subrange(i + 1, values@.len() as int));
        assert(rest[0] == values@[i as int]);
        if let Some(v) = values[i] {
            if let Some(f) = value_mhz(v, floats) {
                return Some(f);
            }
        }
        i = i + 1;
    }
    None
}

/// The current GPU frequency, in MHz, from the values of the symbols
/// `GpuCurrentFrequencyMHz`, `GpuFrequencyMHz` and `GpuCoreFrequencyMHz`, in
/// that order (`None` for a symbol that could not be read): that of the
/// first one that gives a plausible frequency (1 to 9999 MHz; unsigned or
/// float values), `FeatureNotEnabled` when none does.
pub fn frequency_from_symbols(values: &[Option<SymbolValue>]) -> (r: Result<u32, GpuError>)
    ensures
        match first_mhz(values@, true) {
            Some(f) => r == Ok::<u32, GpuError>(f),
            None => r matches Err(GpuError::FeatureNotEnabled(m)) && m@
                == "Frequency metric not available"@,
        },
{
    match first_plausible(values, true) {
        Some(f) => Ok(f),
        None => Err(GpuError::FeatureNotEnabled(String::from_str("Frequency metric not available"))),
    }
}

/// The maximum GPU frequency, in MHz, from the values of the symbols
/// `GpuMaxFrequencyMHz`, `MaxFrequency` and `GpuMaxFreq`, in that order:
/// that of the first one that gives a plausible frequency (unsigned values
/// only), `FeatureNotEnabled` when none does.
pub fn max_frequency_from_symbols(values: &[Option<SymbolValue>]) -> (r: Result<u32, GpuError>)
    ensures
        match first_mhz(values@, false) {
            Some(f) => r == Ok::<u32, GpuError>(f),
            None => r matches Err(GpuError::FeatureNotEnabled(m)) && m@
                == "Max frequency not available"@,
        },
{
    match first_plausible(values, false) {
        Some(f) => Ok(f),
        None => Err(GpuError::FeatureNotEnabled(String::from_str("Max frequency not available"))),
    }
}

/// The memory frequency, in MHz, from the value of the symbol
/// `MemoryFrequencyMHz`: its unsigned value (a 64-bit one cut to 32 bits);
/// `FeatureNotEnabled` when the symbol could not be read or holds another
/// type.
pub fn memory_frequency_from_symbol(value: Option<SymbolValue>) -> (r: Result<u32, GpuError>)
    ensures
        match value {
            Some(SymbolValue::Uint32(f)) => r == Ok::<u32, GpuError>(f),
            Some(SymbolValue::Uint64(f)) => r == Ok::<u32, GpuError>(f as u32),
            Some(_) => r matches Err(GpuError::FeatureNotEnabled(m)) && m@
                == "Invalid memory frequency type"@,
            None => r matches Err(GpuError::FeatureNotEnabled(m)) && m@
                == "Memory frequency not available"@,
        },
{
    match value {
        Some(SymbolValue::Uint32(f)) => Ok(f),
        Some(SymbolValue::Uint64(f)) => Ok(f as u32),
        Some(_) => Err(GpuError::FeatureNotEnabled(String::from_str("Invalid memory frequency type"))),
        None => Err(GpuError::FeatureNotEnabled(String::from_str("Memory frequency not available"))),
    }
}

} // verus!
