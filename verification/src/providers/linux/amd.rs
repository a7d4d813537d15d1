//! AMD GPU provider for Linux: the GPU description read from the amdgpu
//! sysfs files of a DRM card.
use vstd::prelude::*;
use crate::gpu_info::{opt_view, GpuError, GpuRecord, GpuRecordView};
use crate::providers::linux::sysfs::{
    active_dpm_clock, active_dpm_mhz, bytes_to_mb, bytes_to_mb_spec, first_number, first_u32,
    first_u64, hz_to_mhz, hz_to_mhz_spec, max_dpm_clock, max_dpm_mhz, dpm_level_mhz,
    is_active_level, lemma_active_dpm_is_active_level, lemma_no_active_level,
};
use crate::text::{
    chars_of, lines, parse_u32_spec, parse_u64_spec, parse_u32_trimmed, parse_u64_trimmed,
    push_all, push_str_chars, string_from_chars, string_views, trim, trimmed,
};
use crate::vendor::Vendor;

verus! {

/// The PCI vendor id of AMD.
pub const AMD_VENDOR_ID: u32 = 0x1002;

/// AMD GPU provider for Linux.
pub struct AmdLinuxProvider;

/// What was read from the sysfs files of one DRM card; a file that could not
/// be read is `None`, hwmon files come one per hwmon directory that had one.
pub struct AmdCardReadings {
    /// `device/vendor`, already read as a PCI id.
    pub vendor_id: u32,
    /// `device/product_name`.
    pub product_name: Option<String>,
    /// `device/subsystem_device`.
    pub subsystem_device: Option<String>,
    /// `/sys/module/amdgpu/version`.
    pub module_version: Option<String>,
    /// `device/pp_dpm_sclk`, the core clock table.
    pub sclk_table: Option<String>,
    /// `device/pp_dpm_mclk`, the memory clock table.
    pub mclk_table: Option<String>,
    /// `hwmon*/freq1_input`, core clock in Hz.
    pub core_freqs: Vec<String>,
    /// `hwmon*/freq2_input`, memory clock in Hz.
    pub memory_freqs: Vec<String>,
    /// `hwmon*/freq1_max`, highest core clock in Hz.
    pub max_freqs: Vec<String>,
    /// `device/mem_info_vram_total`, bytes.
    pub vram_total: Option<String>,
}

/// The name of an AMD card: its trimmed product name, else its subsystem
/// device id, else `AMD GPU`.
pub open spec fn amd_name_spec(product: Option<Seq<char>>, subsystem: Option<Seq<char>>) -> Seq<
    char,
> {
    match product {
        Some(p) => trim(p),
        None => match subsystem {
            Some(s) => "AMD GPU (Device ID: "@ + trim(s) + ")"@,
            None => "AMD GPU"@,
        },
    }
}

/// A clock read from a `pp_dpm_*` table's active level, else from the first
/// hwmon frequency (Hz) that can be read.
pub open spec fn dpm_or_hwmon_spec(table: Option<Seq<char>>, hwmon: Seq<Seq<char>>) -> Option<
    u32,
> {
    let from_table = match table {
        Some(t) => active_dpm_mhz(lines(t)),
        None => None,
    };
    match from_table {
        Some(v) => Some(v as u32),
        None => match first_number(hwmon, u64::MAX as nat) {
            Some(hz) => Some(hz_to_mhz_spec(hz as u64)),
            None => None,
        },
    }
}

/// The highest clock of a `pp_dpm_sclk` table when above 0, else the first
/// hwmon `freq1_max` (Hz) that can be read.
pub open spec fn max_clock_spec(table: Option<Seq<char>>, hwmon: Seq<Seq<char>>) -> Option<u32> {
    let from_table = match table {
        Some(t) => if max_dpm_mhz(lines(t)) > 0 {
            Some(max_dpm_mhz(lines(t)) as u32)
        } else {
            None
        },
        None => None,
    };
    match from_table {
        Some(v) => Some(v),
        None => match first_number(hwmon, u64::MAX as nat) {
            Some(hz) => Some(hz_to_mhz_spec(hz as u64)),
            None => None,
        },
    }
}

/// Total VRAM in MB, from the byte count of `mem_info_vram_total`.
pub open spec fn vram_total_spec(content: Option<Seq<char>>) -> Option<u32> {
    match content {
        Some(c) => match parse_u64_spec(trim(c)) {
            Some(b) => Some(bytes_to_mb_spec(b as u64)),
            None => None,
        },
        None => None,
    }
}

/// The record of an AMD card, or `None` when the card is not AMD's.
pub open spec fn amd_card_spec(r: AmdCardReadings) -> Option<GpuRecordView> {
    if r.vendor_id != AMD_VENDOR_ID {
        None
    } else {
        Some(
            GpuRecordView {
                vendor: Vendor::Amd,
                name_gpu: Some(amd_name_spec(opt_view(r.product_name), opt_view(r.subsystem_device))),
                core_clock: dpm_or_hwmon_spec(opt_view(r.sclk_table), string_views(r.core_freqs@)),
                memory_clock: dpm_or_hwmon_spec(
                    opt_view(r.mclk_table),
                    string_views(r.memory_freqs@),
                ),
                active: Some(true),
                memory_total: vram_total_spec(opt_view(r.vram_total)),
                memory_used: None,
                driver_version: match opt_view(r.module_version) {
                    Some(v) => Some(trim(v)),
                    None => None,
                },
                max_clock_speed: max_clock_spec(opt_view(r.sclk_table), string_views(r.max_freqs@)),
            },
        )
    }
}

/// The memory clock of an AMD card whose `pp_dpm_mclk` table has an active
/// level (line `i`, the first marked `*` with a readable clock) is that
/// level's clock, whatever hwmon reports.
pub proof fn lemma_amd_memory_clock_is_active_mclk_level(r: AmdCardReadings, i: int)
    requires
        r.vendor_id == AMD_VENDOR_ID,
        r.mclk_table is Some,
        is_active_level(lines(r.mclk_table->0@), i),
    ensures
        amd_card_spec(r) matches Some(v) && v.memory_clock == Some(
            dpm_level_mhz(lines(r.mclk_table->0@)[i])->0 as u32,
        ),
{
    lemma_active_dpm_is_active_level(lines(r.mclk_table->0@), i);
}

/// The core clock of an AMD card whose `pp_dpm_sclk` table has an active
/// level (line `i`) is that level's clock, whatever hwmon reports.
pub proof fn lemma_amd_core_clock_is_active_sclk_level(r: AmdCardReadings, i: int)
    requires
        r.vendor_id == AMD_VENDOR_ID,
        r.sclk_table is Some,
        is_active_level(lines(r.sclk_table->0@), i),
    ensures
        amd_card_spec(r) matches Some(v) && v.core_clock == Some(
            dpm_level_mhz(lines(r.sclk_table->0@)[i])->0 as u32,
        ),
{
    lemma_active_dpm_is_active_level(lines(r.sclk_table->0@), i);
}

/// Without an active level in its `pp_dpm_mclk` table (or without the
/// table), the memory clock of an AMD card is the first readable hwmon
/// `freq2_input`, Hz turned into whole MHz, and unknown without one.
pub proof fn lemma_amd_memory_clock_falls_back_to_hwmon(r: AmdCardReadings)
    requires
        r.vendor_id == AMD_VENDOR_ID,
        r.mclk_table matches Some(t) ==> forall|i: int| !#[trigger] is_active_level(lines(t@), i),
    ensures
        amd_card_spec(r) matches Some(v) && match first_number(
            string_views(r.memory_freqs@),
            u64::MAX as nat,
        ) {
            Some(hz) => v.memory_clock == Some((hz / 1_000_000) as u32),
            None => v.memory_clock is None,
        },
{
    if let Some(t) = r.mclk_table {
        lemma_no_active_level(lines(t@));
    }
    crate::providers::linux::sysfs::lemma_first_number_bound(
        string_views(r.memory_freqs@),
        u64::MAX as nat,
    );
}

/// A card is described exactly when its vendor id is AMD's, as an active
/// AMD GPU.
pub proof fn lemma_amd_card_is_amd(r: AmdCardReadings)
    ensures
        amd_card_spec(r) is Some <==> r.vendor_id == AMD_VENDOR_ID,
        amd_card_spec(r) matches Some(v) ==> v.vendor == Vendor::Amd && v.active == Some(true),
{
}

/// The memory clock follows the same rule as the core clock: reading a
/// card whose core-clock sources (the `pp_dpm_sclk` table and `freq1_input`
/// files) hold what the memory-clock sources of `r` (`pp_dpm_mclk`,
/// `freq2_input`) hold gives as core clock the memory clock of `r`.
pub proof fn lemma_amd_memory_clock_same_rule_as_core(r: AmdCardReadings, s: AmdCardReadings)
    requires
        r.vendor_id == AMD_VENDOR_ID,
        s.vendor_id == AMD_VENDOR_ID,
        opt_view(s.sclk_table) == opt_view(r.mclk_table),
        string_views(s.core_freqs@) == string_views(r.memory_freqs@),
    ensures
        amd_card_spec(r) matches Some(v) && amd_card_spec(s) matches Some(w) && v.memory_clock
            == w.core_clock,
{
}

/// The first hwmon reading whose `name` file says `amdgpu` (trimmed) and whose
/// `gpu_busy_percent` holds a `u32`.
pub open spec fn amdgpu_busy(hwmon: Seq<(Seq<char>, Seq<char>)>) -> Option<nat>
    decreases hwmon.len(),
{
    if hwmon.len() == 0 {
        None
    } else if trim(hwmon[0].0) == "amdgpu"@ && parse_u32_spec(trim(hwmon[0].1)) is Some {
        parse_u32_spec(trim(hwmon[0].1))
    } else {
        amdgpu_busy(hwmon.drop_first())
    }
}

/// The character contents of `(name, busy)` reading pairs.
pub open spec fn pair_views(v: Seq<(String, String)>) -> Seq<(Seq<char>, Seq<char>)> {
    v.map_values(|p: (String, String)| (p.0@, p.1@))
}

impl AmdLinuxProvider {
    /// Creates the provider.
    pub fn new() -> (r: Self) {
        AmdLinuxProvider
    }

    /// The vendor this provider serves: AMD.
    pub fn get_vendor(&self) -> (r: Vendor)
        ensures
            r == Vendor::Amd,
    {
        Vendor::Amd
    }

    /// The name of a card from its `product_name` and `subsystem_device`
    /// files.
    pub fn get_gpu_name(product_name: Option<&str>, subsystem_device: Option<&str>) -> (r: String)
        ensures
            r@ == amd_name_spec(
                match product_name {
                    Some(p) => Some(p@),
                    None => None,
                },
                match subsystem_device {
                    Some(s) => Some(s@),
                    None => None,
                },
            ),
    {
        match product_name {
            Some(p) => {
                let c = chars_of(p);
                let t = trimmed(c.as_slice());
                string_from_chars(t.as_slice())
            },
            None => match subsystem_device {
                Some(s) => {
                    let c = chars_of(s);
                    let t = trimmed(c.as_slice());
                    let mut out: Vec<char> = Vec::new();
                    push_str_chars(&mut out, "AMD GPU (Device ID: ");
                    push_all(&mut out, t.as_slice());
                    push_str_chars(&mut out, ")");
                    string_from_chars(out.as_slice())
                },
                None => String::from_str("AMD GPU"),
            },
        }
    }

    /// The driver version from `/sys/module/amdgpu/version`, trimmed.
    pub fn get_driver_version(module_version: Option<&str>) -> (r: Option<String>)
        ensures
            match module_version {
                Some(v) => r matches Some(s) && s@ == trim(v@),
                None => r is None,
            },
    {
        match module_version {
            Some(v) => {
                let c = chars_of(v);
                let t = trimmed(c.as_slice());
                Some(string_from_chars(t.as_slice()))
            },
            None => None,
        }
    }

    /// A core or memory clock: the active level of its `pp_dpm_*` table,
    /// else the first hwmon frequency that can be read.
    pub fn dpm_or_hwmon_clock(table: Option<&str>, hwmon_freqs: &[String]) -> (r: Option<u32>)
        ensures
            r == dpm_or_hwmon_spec(
                match table {
                    Some(t) => Some(t@),
                    None => None,
                },
                string_views(hwmon_freqs@),
            ),
    {
        let from_table = match table {
            Some(t) => active_dpm_clock(t),
            None => None,
        };
        match from_table {
            Some(v) => Some(v),
            None => match first_u64(hwmon_freqs) {
                Some(hz) => Some(hz_to_mhz(hz)),
                None => None,
            },
        }
    }

    /// The highest core clock: that of the `pp_dpm_sclk` table when above 0,
    /// else the first hwmon `freq1_max` that can be read.
    pub fn get_max_clock_speed(table: Option<&str>, hwmon_max: &[String]) -> (r: Option<u32>)
        ensures
            r == max_clock_spec(
                match table {
                    Some(t) => Some(t@),
                    None => None,
                },
                string_views(hwmon_max@),
            ),
    {
        let from_table = match table {
            Some(t) => max_dpm_clock(t),
            None => None,
        };
        match from_table {
            Some(v) => Some(v),
            None => match first_u64(hwmon_max) {
                Some(hz) => Some(hz_to_mhz(hz)),
                None => None,
            },
        }
    }

    /// Total VRAM in MB from `mem_info_vram_total`.
    pub fn get_memory_total(vram_total: Option<&str>) -> (r: Option<u32>)
        ensures
            r == vram_total_spec(
                match vram_total {
                    Some(t) => Some(t@),
                    None => None,
                },
            ),
    {
        match vram_total {
            Some(t) => {
                let c = chars_of(t);
                match parse_u64_trimmed(c.as_slice()) {
                    Some(b) => Some(bytes_to_mb(b)),
                    None => None,
                }
            },
            None => None,
        }
    }

    /// GPU utilization in percent: the first DRM engine `busy_percent`
    /// (`gfx`, then `compute`) that holds a `u32`, else the
    /// `gpu_busy_percent` of the first hwmon directory named `amdgpu` that
    /// holds one.
    pub fn get_gpu_utilization(engine_busy: &[String], hwmon: &[(String, String)]) -> (r: Option<
        u32,
    >)
        ensures
            match first_number(string_views(engine_busy@), u32::MAX as nat) {
                Some(v) => r == Some(v as u32),
                None => match amdgpu_busy(pair_views(hwmon@)) {
                    Some(v) => r == Some(v as u32),
                    None => r is None,
                },
            },
    {
        let e = first_u32(engine_busy);
        if e.is_some() {
            return e;
        }
        let ghost vs = pair_views(hwmon@);
        let name = chars_of("amdgpu");
        let mut i: usize = 0;
        assert(vs.subrange(0, vs.len() as int) =~= vs);
        while i < hwmon.len()
            invariant
                i <= hwmon@.len(),
                vs == pair_views(hwmon@),
                name@ == "amdgpu"@,
                first_number(string_views(engine_busy@), u32::MAX as nat) is None,
                amdgpu_busy(vs) == amdgpu_busy(vs.subrange(i as int, vs.len() as int)),
            decreases hwmon@.len() - i,
        {
            let ghost rest = vs.subrange(i as int, vs.len() as int);
            assert(rest[0] == (hwmon@[i as int].0@, hwmon@[i as int].1@));
            let n = chars_of(hwmon[i].0.as_str());
            let t = trimmed(n.as_slice());
            if t.len() == name.len() && crate::text::starts_with(t.as_slice(), name.as_slice()) {
                assert(t@ =~= name@);
                let b = chars_of(hwmon[i].1.as_str());
                let v = parse_u32_trimmed(b.as_slice());
                if v.is_some() {
                    return v;
                }
            } else {
                proof {
                    if t@ == name@ {
                        assert(t@.subrange(0, name@.len() as int) =~= t@);
                    }
                }
            }
            assert(rest.drop_first() =~= vs.subrange(i + 1, vs.len() as int));
            i = i + 1;
        }
        assert(vs.subrange(i as int, vs.len() as int) =~= Seq::<(Seq<char>, Seq<char>)>::empty());
        None
    }

    /// The record of a card from what was read of it; `GpuNotFound` when its
    /// vendor id is not AMD's.
    pub fn probe_amd_card(&self, readings: &AmdCardReadings) -> (r: Result<GpuRecord, GpuError>)
        ensures
            match amd_card_spec(*readings) {
                Some(v) => r matches Ok(g) && g@ == v,
                None => r matches Err(GpuError::GpuNotFound),
            },
    {
        if readings.vendor_id != AMD_VENDOR_ID {
            return Err(GpuError::GpuNotFound);
        }
        let name = Self::get_gpu_name(
            match &readings.product_name {
                Some(p) => Some(p.as_str()),
                None => None,
            },
            match &readings.subsystem_device {
                Some(s) => Some(s.as_str()),
                None => None,
            },
        );
        let driver_version = Self::get_driver_version(
            match &readings.module_version {
                Some(v) => Some(v.as_str()),
                None => None,
            },
        );
        let sclk = match &readings.sclk_table {
            Some(t) => Some(t.as_str()),
            None => None,
        };
        let mclk = match &readings.mclk_table {
            Some(t) => Some(t.as_str()),
            None => None,
        };
        let core_clock = Self::dpm_or_hwmon_clock(sclk, readings.core_freqs.as_slice());
        let memory_clock = Self::dpm_or_hwmon_clock(mclk, readings.memory_freqs.as_slice());
        let max_clock_speed = Self::get_max_clock_speed(sclk, readings.max_freqs.as_slice());
        let memory_total = Self::get_memory_total(
            match &readings.vram_total {
                Some(t) => Some(t.as_str()),
                None => None,
            },
        );
        Ok(
            GpuRecord {
                vendor: Vendor::Amd,
                name_gpu: Some(name),
                core_clock,
                memory_clock,
                active: Some(true),
                memory_total,
                memory_used: None,
                driver_version,
                max_clock_speed,
            },
        )
    }
}

impl Default for AmdLinuxProvider {
    fn default() -> (r: Self) {
        Self::new()
    }
}

} // verus!
