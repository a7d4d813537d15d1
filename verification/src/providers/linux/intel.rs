//! Intel GPU provider for Linux: the GPU description read from the i915
//! sysfs files of a DRM card.
use vstd::prelude::*;
use crate::gpu_info::{opt_view, GpuError, GpuRecord, GpuRecordView};
use crate::providers::linux::sysfs::{first_number, first_u32, lemma_first_number_bound};
use crate::text::{
    chars_of, has_prefix, hex_chars_padded, hexadecimal, parse_usize, parse_usize_spec, push_all,
    push_str_chars, split_words, starts_with, string_from_chars, string_views, strip_prefixes,
    stripped_prefixes, trim, trimmed, views, words, zero_pad,
};
use crate::vendor::{IntelGpuType, Vendor};

verus! {

/// The PCI vendor id of Intel.
pub const INTEL_VENDOR_ID: u32 = 0x8086;

/// Intel GPU provider for Linux.
pub struct IntelLinuxProvider;

/// What was read from the sysfs files of one DRM card; a file that could not
/// be read is `None` or left out of its list.
pub struct IntelCardReadings {
    /// `device/vendor`, already read as a PCI id.
    pub vendor_id: u32,
    /// `device/device`, when it could be read as a PCI id.
    pub device_id: Option<u32>,
    /// `device/subsystem_device`.
    pub subsystem_device: Option<String>,
    /// `/sys/module/i915/version`.
    pub module_version: Option<String>,
    /// `/proc/version`.
    pub proc_version: Option<String>,
    /// `gt_cur_freq_mhz`, then `gt_act_freq_mhz`.
    pub core_freqs: Vec<String>,
    /// `gt_mem_freq_mhz`.
    pub memory_freqs: Vec<String>,
    /// `gt_max_freq_mhz`, then `gt_boost_freq_mhz`.
    pub max_freqs: Vec<String>,
}

/// The name of an Intel card: its device id in four hexadecimal digits and,
/// when known, its subsystem device; `Intel GPU` without a device id.
pub open spec fn intel_name_spec(device_id: Option<u32>, subsystem: Option<Seq<char>>) -> Seq<
    char,
> {
    match device_id {
        Some(id) => {
            let hex = zero_pad(hexadecimal(id as nat), 4);
            match subsystem {
                Some(s) => "Intel GPU (Device ID: 0x"@ + hex + ", "@ + trim(s) + ")"@,
                None => "Intel GPU (Device ID: 0x"@ + hex + ")"@,
            }
        },
        None => "Intel GPU"@,
    }
}

/// The driver version: the trimmed i915 module version, else the third word
/// of `/proc/version` (the kernel release) as `i915 (kernel <release>)`.
pub open spec fn intel_driver_spec(module: Option<Seq<char>>, proc_version: Option<Seq<char>>) -> Option<
    Seq<char>,
> {
    match module {
        Some(m) => Some(trim(m)),
        None => match proc_version {
            Some(p) => if words(p).len() > 2 {
                Some("i915 (kernel "@ + words(p)[2] + ")"@)
            } else {
                None
            },
            None => None,
        },
    }
}

/// The first of the readings that holds a clock in MHz.
pub open spec fn first_mhz(readings: Seq<Seq<char>>) -> Option<u32> {
    match first_number(readings, u32::MAX as nat) {
        Some(v) => Some(v as u32),
        None => None,
    }
}

/// The record of an Intel card, or `None` when the card is not Intel's.
pub open spec fn intel_card_spec(r: IntelCardReadings) -> Option<GpuRecordView> {
    if r.vendor_id != INTEL_VENDOR_ID {
        None
    } else {
        Some(
            GpuRecordView {
                vendor: Vendor::Intel(IntelGpuType::Integrated),
                name_gpu: Some(intel_name_spec(r.device_id, opt_view(r.subsystem_device))),
                core_clock: first_mhz(string_views(r.core_freqs@)),
                memory_clock: first_mhz(string_views(r.memory_freqs@)),
                active: Some(true),
                memory_total: None,
                memory_used: None,
                driver_version: intel_driver_spec(
                    opt_view(r.module_version),
                    opt_view(r.proc_version),
                ),
                max_clock_speed: first_mhz(string_views(r.max_freqs@)),
            },
        )
    }
}

/// The card number of a DRM card directory name (`card1` is 1).
pub open spec fn card_number_spec(name: Seq<char>) -> Option<nat> {
    if has_prefix(name, "card"@) {
        parse_usize_spec(strip_prefixes(name, "card"@))
    } else {
        None
    }
}

impl IntelLinuxProvider {
    /// Creates the provider.
    pub fn new() -> (r: Self) {
        IntelLinuxProvider
    }

    /// The vendor this provider serves: Intel, of a type not yet known.
    pub fn get_vendor(&self) -> (r: Vendor)
        ensures
            r == Vendor::Intel(IntelGpuType::Unknown),
    {
        Vendor::Intel(IntelGpuType::Unknown)
    }

    /// The name of a card from its device id and `subsystem_device` file.
    pub fn get_gpu_name(device_id: Option<u32>, subsystem_device: Option<&str>) -> (r: String)
        ensures
            r@ == intel_name_spec(
                device_id,
                match subsystem_device {
                    Some(s) => Some(s@),
                    None => None,
                },
            ),
    {
        match device_id {
            Some(id) => {
                let hex = hex_chars_padded(id as u64, 4);
                let mut out: Vec<char> = Vec::new();
                push_str_chars(&mut out, "Intel GPU (Device ID: 0x");
                push_all(&mut out, hex.as_slice());
                match subsystem_device {
                    Some(s) => {
                        let c = chars_of(s);
                        let t = trimmed(c.as_slice());
                        push_str_chars(&mut out, ", ");
                        push_all(&mut out, t.as_slice());
                    },
                    None => {},
                }
                push_str_chars(&mut out, ")");
                string_from_chars(out.as_slice())
            },
            None => String::from_str("Intel GPU"),
        }
    }

    /// The driver version from the i915 module version, else from the kernel
    /// release in `/proc/version`.
    pub fn get_driver_version(module_version: Option<&str>, proc_version: Option<&str>) -> (r:
        Option<String>)
        ensures
            match intel_driver_spec(
                match module_version {
                    Some(v) => Some(v@),
                    None => None,
                },
                match proc_version {
                    Some(v) => Some(v@),
                    None => None,
                },
            ) {
                Some(d) => r matches Some(s) && s@ == d,
                None => r is None,
            },
    {
        match module_version {
            Some(m) => {
                let c = chars_of(m);
                let t = trimmed(c.as_slice());
                Some(string_from_chars(t.as_slice()))
            },
            None => match proc_version {
                Some(p) => {
                    let c = chars_of(p);
                    let ws = split_words(c.as_slice());
                    if ws.len() > 2 {
                        assert(views(ws@)[2] == ws@[2]@);
                        let mut out: Vec<char> = Vec::new();
                        push_str_chars(&mut out, "i915 (kernel ");
                        push_all(&mut out, ws[2].as_slice());
                        push_str_chars(&mut out, ")");
                        Some(string_from_chars(out.as_slice()))
                    } else {
                        None
                    }
                },
                None => None,
            },
        }
    }

    /// The card number of a DRM card directory name: the number after
    /// `card`, `None` for any other name.
    pub fn get_card_number(card_dir_name: &str) -> (r: Option<usize>)
        ensures
            match card_number_spec(card_dir_name@) {
                Some(n) => r == Some(n as usize),
                None => r is None,
            },
    {
        let c = chars_of(card_dir_name);
        let card = chars_of("card");
        if starts_with(c.as_slice(), card.as_slice()) {
            let rest = stripped_prefixes(c.as_slice(), card.as_slice());
            parse_usize(rest.as_slice())
        } else {
            None
        }
    }

    /// The first of the readings that holds a clock in MHz.
    fn first_clock(readings: &[String]) -> (r: Option<u32>)
        ensures
            r == first_mhz(string_views(readings@)),
    {
        proof {
            lemma_first_number_bound(string_views(readings@), u32::MAX as nat);
        }
        first_u32(readings)
    }

    /// The record of a card from what was read of it; `GpuNotFound` when its
    /// vendor id is not Intel's.
    pub fn probe_intel_card(&self, readings: &IntelCardReadings) -> (r: Result<
        GpuRecord,
        GpuError,
    >)
        ensures
            match intel_card_spec(*readings) {
                Some(v) => r matches Ok(g) && g@ == v,
                None => r matches Err(GpuError::GpuNotFound),
            },
    {
        if readings.vendor_id != INTEL_VENDOR_ID {
            return Err(GpuError::GpuNotFound);
        }
        let name = Self::get_gpu_name(
            readings.device_id,
            match &readings.subsystem_device {
                Some(s) => Some(s.as_str()),
                None => None,
            },
        );
        let driver_version = Self::get_driver_version(
            match &readings.module_version {
                Some(v) => Some(v.as_str()),
                None => None,
            },
            match &readings.proc_version {
                Some(v) => Some(v.as_str()),
                None => None,
            },
        );
        Ok(
            GpuRecord {
                vendor: Vendor::Intel(IntelGpuType::Integrated),
                name_gpu: Some(name),
                core_clock: Self::first_clock(readings.core_freqs.as_slice()),
                memory_clock: Self::first_clock(readings.memory_freqs.as_slice()),
                active: Some(true),
                memory_total: None,
                memory_used: None,
                driver_version,
                max_clock_speed: Self::first_clock(readings.max_freqs.as_slice()),
            },
        )
    }
}

impl Default for IntelLinuxProvider {
    fn default() -> (r: Self) {
        Self::new()
    }
}

} // verus!
