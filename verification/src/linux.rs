//! The primary GPU on Linux: which vendor's provider to ask, and the first
//! GPU it reports.
use vstd::prelude::*;
use crate::gpu_info::{vendor_only, GpuError, GpuRecord};
use crate::text::{chars_of, trim, trimmed};
use crate::vendor::{IntelGpuType, Vendor};

verus! {

/// The vendor of `/sys/class/drm/card0/device/vendor` (its trimmed text),
/// else NVIDIA when the NVML library is installed, else unknown.
pub open spec fn detect_vendor_spec(card0_vendor: Option<Seq<char>>, nvml_installed: bool) -> Vendor {
    let from_card = match card0_vendor {
        Some(c) => if trim(c) == "0x10de"@ {
            Some(Vendor::Nvidia)
        } else if trim(c) == "0x1002"@ {
            Some(Vendor::Amd)
        } else if trim(c) == "0x8086"@ {
            Some(Vendor::Intel(IntelGpuType::Unknown))
        } else {
            None
        },
        None => None,
    };
    match from_card {
        Some(v) => v,
        None => if nvml_installed {
            Vendor::Nvidia
        } else {
            Vendor::Unknown
        },
    }
}

/// Whether `a` and `b` hold the same characters.
fn same_chars(a: &[char], b: &str) -> (r: bool)
    ensures
        r == (a@ == b@),
{
    let bs = chars_of(b);
    if a.len() != bs.len() {
        return false;
    }
    let mut i: usize = 0;
    while i < a.len()
        invariant
            i <= a@.len(),
            a@.len() == bs@.len(),
            bs@ == b@,
            forall|j: int| 0 <= j < i ==> a@[j] == bs@[j],
        decreases a@.len() - i,
    {
        if a[i] != bs[i] {
            return false;
        }
        i = i + 1;
    }
    assert(a@ =~= bs@);
    true
}

/// The vendor of the system's GPU from the text of card 0's PCI vendor file
/// (when it could be read) and whether the NVML library is installed.
pub fn detect_vendor(card0_vendor: Option<&str>, nvml_installed: bool) -> (r: Vendor)
    ensures
        r == detect_vendor_spec(
            match card0_vendor {
                Some(c) => Some(c@),
                None => None,
            },
            nvml_installed,
        ),
{
    match card0_vendor {
        Some(c) => {
            let cs = chars_of(c);
            let t = trimmed(cs.as_slice());
            if same_chars(t.as_slice(), "0x10de") {
                return Vendor::Nvidia;
            } else if same_chars(t.as_slice(), "0x1002") {
                return Vendor::Amd;
            } else if same_chars(t.as_slice(), "0x8086") {
                return Vendor::Intel(IntelGpuType::Unknown);
            }
        },
        None => {},
    }
    if nvml_installed {
        Vendor::Nvidia
    } else {
        Vendor::Unknown
    }
}

/// The primary GPU from what the vendor's provider detected: its first GPU,
/// or a GPU of unknown vendor when it detected none or failed.
pub fn info_gpu(detected: Result<Vec<GpuRecord>, GpuError>) -> (r: GpuRecord)
    ensures
        match detected {
            Ok(gs) => if gs@.len() > 0 {
                r == gs@[0]
            } else {
                vendor_only(r, Vendor::Unknown)
            },
            Err(_) => vendor_only(r, Vendor::Unknown),
        },
{
    match detected {
        Ok(gs) => {
            let mut gs = gs;
            if gs.len() > 0 {
                gs.remove(0)
            } else {
                GpuRecord::unknown()
            }
        },
        Err(_) => GpuRecord::unknown(),
    }
}

} // verus!
