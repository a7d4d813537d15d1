//! GPU errors, the integer- and text-valued description of a GPU, and the
//! helpers shared by the providers.
use vstd::prelude::*;
use crate::text::{decimal, decimal_chars, string_from_chars};
use crate::vendor::Vendor;

verus! {

/// Errors of GPU operations whose cause is not a floating-point reading.
#[derive(Debug)]
#[non_exhaustive]
pub enum GpuError {
    /// Clock speed outside 0-5000 MHz.
    InvalidClockSpeed(u32),
    /// Memory size outside 0-131072 MB.
    InvalidMemory(u32),
    /// No GPU was found.
    GpuNotFound,
    /// The GPU driver is not installed or not accessible.
    DriverNotInstalled,
    /// The GPU is not active.
    GpuNotActive,
    /// A feature is not enabled.
    FeatureNotEnabled(String),
    /// A foreign-function operation failed.
    Ffi(String),
}

/// `Err(GpuNotFound)` for an empty vector, the vector itself otherwise.
pub fn handle_empty_result<T>(items: Vec<T>) -> (r: Result<Vec<T>, GpuError>)
    ensures
        items@.len() == 0 ==> r matches Err(GpuError::GpuNotFound),
        items@.len() > 0 ==> (r matches Ok(v) && v@ == items@),
{
    if items.len() == 0 {
        Err(GpuError::GpuNotFound)
    } else {
        Ok(items)
    }
}

/// Copies `source` into `dest`; when both hold a string the existing
/// allocation of `dest` is reused.
pub fn clone_option_string(dest: &mut Option<String>, source: &Option<String>)
    ensures
        match (*final(dest), *source) {
            (Some(d), Some(s)) => d@ == s@,
            (None, None) => true,
            _ => false,
        },
{
    match (dest.as_mut(), source) {
        (Some(d), Some(s)) => {
            d.clear();
            d.push_str(s.as_str());
        },
        _ => {
            *dest = match source {
                Some(s) => Some(s.clone()),
                None => None,
            };
        },
    }
}

/// Values with a human-readable text, `N/A` when the value is absent.
pub trait Formattable {
    /// The text of the value.
    spec fn formatted(&self) -> Seq<char>;

    /// The text of the value.
    fn fmt_string(&self) -> (r: String)
        ensures
            r@ == self.formatted(),
    ;
}

impl Formattable for Option<u32> {
    open spec fn formatted(&self) -> Seq<char> {
        match *self {
            Some(v) => decimal(v as nat),
            None => "N/A"@,
        }
    }

    fn fmt_string(&self) -> (r: String) {
        match self {
            Some(v) => {
                let digits = decimal_chars(*v as u64);
                string_from_chars(digits.as_slice())
            },
            None => String::from_str("N/A"),
        }
    }
}

impl Formattable for Option<bool> {
    open spec fn formatted(&self) -> Seq<char> {
        match *self {
            Some(true) => "true"@,
            Some(false) => "false"@,
            None => "N/A"@,
        }
    }

    fn fmt_string(&self) -> (r: String) {
        match self {
            Some(true) => String::from_str("true"),
            Some(false) => String::from_str("false"),
            None => String::from_str("N/A"),
        }
    }
}

impl Formattable for Option<String> {
    open spec fn formatted(&self) -> Seq<char> {
        match *self {
            Some(v) => v@,
            None => "N/A"@,
        }
    }

    fn fmt_string(&self) -> (r: String) {
        match self {
            Some(v) => v.clone(),
            None => String::from_str("N/A"),
        }
    }
}

impl<'a> Formattable for Option<&'a str> {
    open spec fn formatted(&self) -> Seq<char> {
        match *self {
            Some(v) => v@,
            None => "N/A"@,
        }
    }

    fn fmt_string(&self) -> (r: String) {
        match self {
            Some(v) => String::from_str(*v),
            None => String::from_str("N/A"),
        }
    }
}

impl Formattable for String {
    open spec fn formatted(&self) -> Seq<char> {
        self@
    }

    fn fmt_string(&self) -> (r: String) {
        self.clone()
    }
}

/// The largest valid clock speed, in MHz.
pub const MAX_CLOCK_MHZ: u32 = 5000;

/// The largest valid memory size, in MB (128 GB).
pub const MAX_MEMORY_MB: u32 = 131072;

/// What is known of a GPU besides its floating-point readings (temperature,
/// utilization, power): vendor, name, clocks, memory, activity and driver.
#[derive(Debug, PartialEq)]
pub struct GpuRecord {
    /// The GPU vendor.
    pub vendor: Vendor,
    /// The full GPU name.
    pub name_gpu: Option<String>,
    /// Current core clock, MHz.
    pub core_clock: Option<u32>,
    /// Memory clock, MHz.
    pub memory_clock: Option<u32>,
    /// Whether the GPU is active.
    pub active: Option<bool>,
    /// Total memory, MB.
    pub memory_total: Option<u32>,
    /// Used memory, MB.
    pub memory_used: Option<u32>,
    /// Driver version.
    pub driver_version: Option<String>,
    /// Maximum clock speed, MHz.
    pub max_clock_speed: Option<u32>,
}

/// A copy of an optional string.
fn clone_opt_string(s: &Option<String>) -> (r: Option<String>)
    ensures
        r == *s,
{
    match s {
        Some(t) => Some(t.clone()),
        None => None,
    }
}

impl Clone for GpuRecord {
    /// A field-by-field copy.
    fn clone(&self) -> (r: Self)
        ensures
            r == *self,
    {
        GpuRecord {
            vendor: self.vendor,
            name_gpu: clone_opt_string(&self.name_gpu),
            core_clock: self.core_clock,
            memory_clock: self.memory_clock,
            active: self.active,
            memory_total: self.memory_total,
            memory_used: self.memory_used,
            driver_version: clone_opt_string(&self.driver_version),
            max_clock_speed: self.max_clock_speed,
        }
    }
}

impl Default for GpuRecord {
    /// A record with an unknown vendor and nothing else known.
    fn default() -> (r: Self)
        ensures
            vendor_only(r, Vendor::Unknown),
    {
        Self::unknown()
    }
}

/// The abstract content of a `GpuRecord`, strings taken as character
/// sequences.
pub struct GpuRecordView {
    /// The GPU vendor.
    pub vendor: Vendor,
    /// The full GPU name.
    pub name_gpu: Option<Seq<char>>,
    /// Current core clock, MHz.
    pub core_clock: Option<u32>,
    /// Memory clock, MHz.
    pub memory_clock: Option<u32>,
    /// Whether the GPU is active.
    pub active: Option<bool>,
    /// Total memory, MB.
    pub memory_total: Option<u32>,
    /// Used memory, MB.
    pub memory_used: Option<u32>,
    /// Driver version.
    pub driver_version: Option<Seq<char>>,
    /// Maximum clock speed, MHz.
    pub max_clock_speed: Option<u32>,
}

/// The character content of an optional string.
pub open spec fn opt_view(s: Option<String>) -> Option<Seq<char>> {
    match s {
        Some(t) => Some(t@),
        None => None,
    }
}

impl View for GpuRecord {
    type V = GpuRecordView;

    open spec fn view(&self) -> GpuRecordView {
        GpuRecordView {
            vendor: self.vendor,
            name_gpu: opt_view(self.name_gpu),
            core_clock: self.core_clock,
            memory_clock: self.memory_clock,
            active: self.active,
            memory_total: self.memory_total,
            memory_used: self.memory_used,
            driver_version: opt_view(self.driver_version),
            max_clock_speed: self.max_clock_speed,
        }
    }
}

/// The view of a record of which only the vendor is known.
pub open spec fn vendor_only_view(vendor: Vendor) -> GpuRecordView {
    GpuRecordView {
        vendor,
        name_gpu: None,
        core_clock: None,
        memory_clock: None,
        active: None,
        memory_total: None,
        memory_used: None,
        driver_version: None,
        max_clock_speed: None,
    }
}

/// The record of a GPU of which only the vendor is known.
pub open spec fn vendor_only(r: GpuRecord, vendor: Vendor) -> bool {
    &&& r.vendor == vendor
    &&& r.name_gpu is None
    &&& r.core_clock is None
    &&& r.memory_clock is None
    &&& r.active is None
    &&& r.memory_total is None
    &&& r.memory_used is None
    &&& r.driver_version is None
    &&& r.max_clock_speed is None
    &&& r@ == vendor_only_view(vendor)
}

/// `"<n> MHz"`, or `"N/A"`.
pub open spec fn mhz_text(c: Option<u32>) -> Seq<char> {
    match c {
        Some(n) => decimal(n as nat) + " MHz"@,
        None => "N/A"@,
    }
}

/// The text of an optional string, or `default` when absent.
pub open spec fn text_or(s: Option<String>, default: Seq<char>) -> Seq<char> {
    match s {
        Some(t) => t@,
        None => default,
    }
}

/// The first range violation of a record: clock above 5000 MHz, then memory
/// above 131072 MB.
pub open spec fn record_violation(r: GpuRecord) -> Option<GpuError> {
    match (r.core_clock, r.memory_total) {
        (Some(c), _) if c > MAX_CLOCK_MHZ => Some(GpuError::InvalidClockSpeed(c)),
        (_, Some(m)) if m > MAX_MEMORY_MB => Some(GpuError::InvalidMemory(m)),
        _ => None,
    }
}

fn mhz_string(c: Option<u32>) -> (r: String)
    ensures
        r@ == mhz_text(c),
{
    match c {
        Some(n) => {
            let digits = decimal_chars(n as u64);
            string_from_chars(digits.as_slice()).concat(" MHz")
        },
        None => String::from_str("N/A"),
    }
}

fn string_or(s: &Option<String>, default: &str) -> (r: String)
    ensures
        r@ == text_or(*s, default@),
{
    match s {
        Some(t) => t.clone(),
        None => String::from_str(default),
    }
}

impl GpuRecord {
    /// A record with an unknown vendor and nothing else known.
    pub fn unknown() -> (r: Self)
        ensures
            vendor_only(r, Vendor::Unknown),
    {
        Self::write_vendor(Vendor::Unknown)
    }

    /// A record with the given vendor and nothing else known.
    pub fn write_vendor(vendor: Vendor) -> (r: Self)
        ensures
            vendor_only(r, vendor),
    {
        GpuRecord {
            vendor,
            name_gpu: None,
            core_clock: None,
            memory_clock: None,
            active: None,
            memory_total: None,
            memory_used: None,
            driver_version: None,
            max_clock_speed: None,
        }
    }

    /// Whether the driver version is known.
    pub fn has_driver(&self) -> (r: bool)
        ensures
            r == self.driver_version is Some,
    {
        self.driver_version.is_some()
    }

    /// Whether total or used memory is known.
    pub fn has_memory_info(&self) -> (r: bool)
        ensures
            r == (self.memory_total is Some || self.memory_used is Some),
    {
        self.memory_total.is_some() || self.memory_used.is_some()
    }

    /// Whether the core or memory clock is known.
    pub fn has_clock_info(&self) -> (r: bool)
        ensures
            r == (self.core_clock is Some || self.memory_clock is Some),
    {
        self.core_clock.is_some() || self.memory_clock.is_some()
    }

    /// Whether the GPU is known to be active (unknown counts as inactive).
    pub fn is_active(&self) -> (r: bool)
        ensures
            r == (self.active == Some(true)),
    {
        match self.active {
            Some(a) => a,
            None => false,
        }
    }

    /// Whether the vendor is known.
    pub fn is_vendor_known(&self) -> (r: bool)
        ensures
            r == (self.vendor != Vendor::Unknown),
    {
        self.vendor != Vendor::Unknown
    }

    /// The name, or `"Unknown GPU"`.
    pub fn format_name_gpu(&self) -> (r: String)
        ensures
            r@ == text_or(self.name_gpu, "Unknown GPU"@),
    {
        string_or(&self.name_gpu, "Unknown GPU")
    }

    /// The driver version, or `"Unknown Driver Version"`.
    pub fn format_driver_version(&self) -> (r: String)
        ensures
            r@ == text_or(self.driver_version, "Unknown Driver Version"@),
    {
        string_or(&self.driver_version, "Unknown Driver Version")
    }

    /// The core clock as `"<n> MHz"`, or `"N/A"`.
    pub fn format_core_clock(&self) -> (r: String)
        ensures
            r@ == mhz_text(self.core_clock),
    {
        mhz_string(self.core_clock)
    }

    /// The memory clock as `"<n> MHz"`, or `"N/A"`.
    pub fn format_memory_clock(&self) -> (r: String)
        ensures
            r@ == mhz_text(self.memory_clock),
    {
        mhz_string(self.memory_clock)
    }

    /// The maximum clock as `"<n> MHz"`, or `"N/A"`.
    pub fn format_max_clock_speed(&self) -> (r: String)
        ensures
            r@ == mhz_text(self.max_clock_speed),
    {
        mhz_string(self.max_clock_speed)
    }

    /// `"Active"` when the GPU is known to be active, `"Inactive"` otherwise.
    pub fn format_active(&self) -> (r: String)
        ensures
            r@ == (if self.active == Some(true) {
                "Active"@
            } else {
                "Inactive"@
            }),
    {
        if self.is_active() {
            String::from_str("Active")
        } else {
            String::from_str("Inactive")
        }
    }

    /// Checks the clock (0-5000 MHz) and total memory (0-131072 MB) ranges,
    /// reporting the first violation.
    pub fn validate(&self) -> (r: Result<(), GpuError>)
        ensures
            match record_violation(*self) {
                Some(GpuError::InvalidClockSpeed(c)) => (r matches Err(GpuError::InvalidClockSpeed(
                    e,
                )) && e == c),
                Some(GpuError::InvalidMemory(m)) => (r matches Err(GpuError::InvalidMemory(e)) && e
                    == m),
                _ => r is Ok,
            },
    {
        if let Some(clock) = self.core_clock {
            if clock > MAX_CLOCK_MHZ {
                return Err(GpuError::InvalidClockSpeed(clock));
            }
        }
        if let Some(mem) = self.memory_total {
            if mem > MAX_MEMORY_MB {
                return Err(GpuError::InvalidMemory(mem));
            }
        }
        Ok(())
    }
}

/// Replaces `gpu` with the first of `gpus`, the GPUs that a provider's API
/// reported; `GpuNotActive` when it reported none, `gpu` then unchanged.
pub fn update_gpu_from_api(gpu: &mut GpuRecord, gpus: Vec<GpuRecord>) -> (r: Result<(), GpuError>)
    ensures
        gpus@.len() > 0 ==> r is Ok && *final(gpu) == gpus@[0],
        gpus@.len() == 0 ==> (r matches Err(GpuError::GpuNotActive) && *final(gpu) == *old(gpu)),
{
    let mut gpus = gpus;
    if gpus.len() > 0 {
        *gpu = gpus.remove(0);
        Ok(())
    } else {
        Err(GpuError::GpuNotActive)
    }
}

/// Replaces `gpu` with the first of the freshly detected `gpus`, leaving it
/// unchanged when none was detected.
pub fn adopt_first(gpu: &mut GpuRecord, gpus: Vec<GpuRecord>)
    ensures
        gpus@.len() > 0 ==> *final(gpu) == gpus@[0],
        gpus@.len() == 0 ==> *final(gpu) == *old(gpu),
{
    let mut gpus = gpus;
    if gpus.len() > 0 {
        *gpu = gpus.remove(0);
    }
}

} // verus!
