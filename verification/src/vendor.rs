//! GPU vendors and the rules that recognise them from a device name.
use crate::text::{chars_of, contains, has_infix, has_infix_ci, lowered};
use vstd::prelude::*;

verus! {

/// Kind of an Intel GPU.
#[derive(Debug, Clone, Copy, PartialEq, Eq, Hash, Structural)]
pub enum IntelGpuType {
    /// Integrated graphics sharing system memory (UHD, Iris).
    Integrated,
    /// Discrete graphics with dedicated memory (Arc).
    Discrete,
    /// Kind not determined.
    Unknown,
}

/// GPU manufacturer.
#[derive(Debug, Clone, Copy, PartialEq, Eq, Hash, Structural)]
pub enum Vendor {
    /// NVIDIA Corporation.
    Nvidia,
    /// Advanced Micro Devices.
    Amd,
    /// Intel Corporation, with the kind of GPU.
    Intel(IntelGpuType),
    /// Apple (Apple Silicon integrated GPUs).
    Apple,
    /// Vendor not determined.
    Unknown,
}

/// The display name of a vendor.
pub open spec fn vendor_name_spec(v: Vendor) -> Seq<char> {
    match v {
        Vendor::Nvidia => "NVIDIA"@,
        Vendor::Amd => "AMD"@,
        Vendor::Intel(_) => "Intel"@,
        Vendor::Apple => "Apple"@,
        Vendor::Unknown => "Unknown"@,
    }
}

impl Vendor {
    /// The name under which the vendor is displayed (`"NVIDIA"`, `"AMD"`, ...).
    pub fn name(&self) -> (r: &'static str)
        ensures
            r@ == vendor_name_spec(*self),
    {
        match self {
            Vendor::Nvidia => "NVIDIA",
            Vendor::Amd => "AMD",
            Vendor::Intel(_) => "Intel",
            Vendor::Apple => "Apple",
            Vendor::Unknown => "Unknown",
        }
    }

    /// Whether the vendor makes discrete GPUs that are preferred as primary
    /// (NVIDIA or AMD).
    pub open spec fn is_discrete_spec(self) -> bool {
        self is Nvidia || self is Amd
    }

    /// Whether the vendor is NVIDIA or AMD.
    pub fn is_discrete(&self) -> (r: bool)
        ensures
            r == self.is_discrete_spec(),
    {
        match self {
            Vendor::Nvidia | Vendor::Amd => true,
            _ => false,
        }
    }
}

/// Kind of Intel GPU named by `name` (ASCII case ignored): `Discrete` for an
/// Arc GPU, `Integrated` for Iris or UHD graphics, `Unknown` otherwise.
pub open spec fn intel_gpu_type_spec(name: Seq<char>) -> IntelGpuType {
    if has_infix_ci(name, "arc"@) {
        IntelGpuType::Discrete
    } else if has_infix_ci(name, "iris"@) || has_infix_ci(name, "uhd"@) {
        IntelGpuType::Integrated
    } else {
        IntelGpuType::Unknown
    }
}

/// Vendor named by a GPU name, ASCII case ignored: AMD for names holding
/// "amd" or "radeon"; else NVIDIA for "nvidia" or "geforce"; else Intel for
/// "intel" (Integrated for "iris" or "uhd"); else, for names that name no
/// other vendor, Apple for "apple", "m1", "m2" or "m3"; else Unknown.
pub open spec fn vendor_from_name_spec(name: Seq<char>) -> Vendor {
    if has_infix_ci(name, "amd"@) || has_infix_ci(name, "radeon"@) {
        Vendor::Amd
    } else if has_infix_ci(name, "nvidia"@) || has_infix_ci(name, "geforce"@) {
        Vendor::Nvidia
    } else if has_infix_ci(name, "intel"@) {
        if has_infix_ci(name, "iris"@) || has_infix_ci(name, "uhd"@) {
            Vendor::Intel(IntelGpuType::Integrated)
        } else {
            Vendor::Intel(IntelGpuType::Unknown)
        }
    } else if has_infix_ci(name, "apple"@) || has_infix_ci(name, "m1"@) || has_infix_ci(name, "m2"@)
        || has_infix_ci(name, "m3"@) {
        Vendor::Apple
    } else {
        Vendor::Unknown
    }
}

/// Whether the lowercased name `low` contains the keyword `k`.
fn has_keyword(low: &[char], k: &str) -> (r: bool)
    ensures
        r == has_infix(low@, k@),
{
    let kc = chars_of(k);
    contains(low, kc.as_slice())
}

/// Recognises the vendor of a GPU from its name.
pub fn determine_vendor_from_name(name: &str) -> (r: Vendor)
    ensures
        r == vendor_from_name_spec(name@),
{
    let cs = chars_of(name);
    let low = lowered(cs.as_slice());
    let l = low.as_slice();
    if has_keyword(l, "amd") || has_keyword(l, "radeon") {
        Vendor::Amd
    } else if has_keyword(l, "nvidia") || has_keyword(l, "geforce") {
        Vendor::Nvidia
    } else if has_keyword(l, "intel") {
        if has_keyword(l, "iris") || has_keyword(l, "uhd") {
            Vendor::Intel(IntelGpuType::Integrated)
        } else {
            Vendor::Intel(IntelGpuType::Unknown)
        }
    } else if has_keyword(l, "apple") || has_keyword(l, "m1") || has_keyword(l, "m2")
        || has_keyword(l, "m3") {
        Vendor::Apple
    } else {
        Vendor::Unknown
    }
}

/// Recognises the kind of an Intel GPU from its name.
pub fn determine_intel_gpu_type_from_name(name: &str) -> (r: IntelGpuType)
    ensures
        r == intel_gpu_type_spec(name@),
{
    let cs = chars_of(name);
    let low = lowered(cs.as_slice());
    let l = low.as_slice();
    if has_keyword(l, "arc") {
        IntelGpuType::Discrete
    } else if has_keyword(l, "iris") || has_keyword(l, "uhd") {
        IntelGpuType::Integrated
    } else {
        IntelGpuType::Unknown
    }
}

/// GPU vendor classification of the command-line monitoring mode.
#[derive(Debug, Clone, Copy, PartialEq, Eq, Structural)]
#[non_exhaustive]
pub enum GpuVendor {
    /// NVIDIA Corporation devices.
    Nvidia,
    /// Advanced Micro Devices devices.
    AMD,
    /// Intel Corporation integrated graphics.
    Intel,
    /// Unknown or unsupported vendor.
    Unknown,
}

impl Default for GpuVendor {
    /// `GpuVendor::Unknown`.
    fn default() -> (r: Self)
        ensures
            r == GpuVendor::Unknown,
    {
        GpuVendor::Unknown
    }
}

} // verus!
