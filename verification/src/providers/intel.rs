//! Intel GPU provider: reading the GPU description from WMI reports.
//!
//! The reports are the `Format-List` output of `Win32_VideoController` and
//! `Win32_ComputerSystem` queries; running the queries is the caller's part.
use vstd::prelude::*;
use crate::gpu_info::{GpuRecord, GpuRecordView};
use crate::text::{
    chars_of, field_value, field_value_of, find_line_with, first_line_with, lines, parse_u64,
    parse_u64_spec, split_lines, string_from_chars, views,
};
use crate::vendor::{IntelGpuType, Vendor, determine_intel_gpu_type_from_name, intel_gpu_type_spec};

verus! {

/// Intel GPU provider.
pub struct IntelProvider;

/// The number written as the value of the first report line containing
/// `key`.
pub open spec fn report_number(report: Seq<char>, key: Seq<char>) -> Option<nat> {
    match first_line_with(lines(report), key) {
        Some(l) => match field_value(l) {
            Some(v) => parse_u64_spec(v),
            None => None,
        },
        None => None,
    }
}

/// Memory an integrated GPU may share: half the system RAM reported as
/// `TotalPhysicalMemory` (bytes), in MB.
pub open spec fn shared_memory_spec(computer_system: Seq<char>) -> Option<u32> {
    match report_number(computer_system, "TotalPhysicalMemory"@) {
        Some(b) => Some((b / 2 / 1024 / 1024) as u32),
        None => None,
    }
}

/// Total memory of an Intel GPU, in MB: shared memory for an integrated GPU
/// (given the computer-system report, when it could be obtained), the
/// `AdapterRAM` of the video-controller report otherwise.
pub open spec fn intel_memory_spec(
    gpu_type: IntelGpuType,
    wmi_output: Seq<char>,
    computer_system: Option<Seq<char>>,
) -> Option<u32> {
    match gpu_type {
        IntelGpuType::Integrated => match computer_system {
            Some(cs) => shared_memory_spec(cs),
            None => None,
        },
        _ => match report_number(wmi_output, "AdapterRAM"@) {
            Some(b) => Some((b / 1024 / 1024) as u32),
            None => None,
        },
    }
}

/// The value of the first report line containing `key`, empty when the line
/// has no value.
pub open spec fn report_text(report: Seq<char>, key: Seq<char>) -> Option<Seq<char>> {
    match first_line_with(lines(report), key) {
        Some(l) => match field_value(l) {
            Some(v) => Some(v),
            None => Some(seq![]),
        },
        None => None,
    }
}

/// The GPU name of a video-controller report ("Intel GPU" when absent).
pub open spec fn intel_name_spec(report: Seq<char>) -> Seq<char> {
    match report_text(report, "Name"@) {
        Some(n) => n,
        None => "Intel GPU"@,
    }
}

/// The record described by a video-controller report.
pub open spec fn intel_record_spec(report: Seq<char>, computer_system: Option<Seq<char>>) -> GpuRecordView {
    let name = intel_name_spec(report);
    let gpu_type = intel_gpu_type_spec(name);
    GpuRecordView {
        vendor: Vendor::Intel(gpu_type),
        name_gpu: Some(name),
        core_clock: None,
        memory_clock: None,
        active: match report_text(report, "Status"@) {
            Some(s) => Some(s == "OK"@),
            None => None,
        },
        memory_total: intel_memory_spec(gpu_type, report, computer_system),
        memory_used: None,
        driver_version: report_text(report, "DriverVersion"@),
        max_clock_speed: None,
    }
}

/// `m` is the number of whole MB in `bytes`.
pub open spec fn whole_mb(bytes: nat, m: u32) -> bool {
    m * 0x10_0000 <= bytes < (m + 1) * 0x10_0000
}

/// The memory of a GPU that is not integrated is its own: whatever the
/// computer-system report says (or whether there is one), it is the whole MB
/// of the report's `AdapterRAM` (for values below 2^52 bytes, whose MB fit
/// in 32 bits), and unknown without one. The memory of an integrated GPU
/// does not depend on the video-controller report, and is unknown without
/// a computer-system report.
pub proof fn lemma_intel_memory_source(
    t: IntelGpuType,
    report: Seq<char>,
    other_report: Seq<char>,
    cs: Option<Seq<char>>,
    other_cs: Option<Seq<char>>,
)
    ensures
        t != IntelGpuType::Integrated ==> intel_memory_spec(t, report, cs) == intel_memory_spec(
            t,
            report,
            other_cs,
        ),
        t != IntelGpuType::Integrated ==> (report_number(report, "AdapterRAM"@) is None
            <==> intel_memory_spec(t, report, cs) is None),
        t != IntelGpuType::Integrated ==> (report_number(report, "AdapterRAM"@) matches Some(b) ==> (b
            < 0x10_0000_0000_0000 ==> (intel_memory_spec(t, report, cs) matches Some(m) && whole_mb(
            b,
            m,
        )))),
        intel_memory_spec(IntelGpuType::Integrated, report, cs) == intel_memory_spec(
            IntelGpuType::Integrated,
            other_report,
            cs,
        ),
        intel_memory_spec(IntelGpuType::Integrated, report, None) is None,
{
    if t != IntelGpuType::Integrated {
        if let Some(b) = report_number(report, "AdapterRAM"@) {
            assert(b / 1024 / 1024 == b / 0x10_0000) by (nonlinear_arith);
            if b < 0x10_0000_0000_0000 {
                assert(b / 0x10_0000 < 0x1_0000_0000) by (nonlinear_arith)
                    requires
                        b < 0x10_0000_0000_0000,
                ;
                assert((b / 0x10_0000) * 0x10_0000 <= b < (b / 0x10_0000 + 1) * 0x10_0000) by (
                nonlinear_arith);
            }
        }
    }
}

/// In the record a video-controller report describes, a GPU that is not
/// integrated has as memory what its own report gives, whatever the
/// computer-system report says.
pub proof fn lemma_intel_record_memory(
    report: Seq<char>,
    cs: Option<Seq<char>>,
    other_cs: Option<Seq<char>>,
)
    ensures
        intel_record_spec(report, cs).vendor != Vendor::Intel(IntelGpuType::Integrated) ==> (
        intel_record_spec(report, cs).memory_total == intel_record_spec(report, other_cs).memory_total
            && intel_record_spec(report, cs).memory_total == intel_memory_spec(
            IntelGpuType::Unknown,
            report,
            None,
        )),
{
    let t = intel_gpu_type_spec(intel_name_spec(report));
    lemma_intel_memory_source(t, report, report, cs, other_cs);
    lemma_intel_memory_source(t, report, report, cs, None);
    lemma_intel_memory_source(IntelGpuType::Unknown, report, report, cs, None);
}

/// The number written as the value of the first line containing `key`.
fn report_number_exec(ls: &[Vec<char>], key: &str) -> (r: Option<u64>)
    ensures
        match (match first_line_with(views(ls@), key@) {
            Some(l) => match field_value(l) {
                Some(v) => parse_u64_spec(v),
                None => None,
            },
            None => None,
        }) {
            Some(v) => r == Some(v as u64),
            None => r is None,
        },
{
    match find_line_with(ls, key) {
        Some(i) => match field_value_of(ls[i].as_slice()) {
            Some(v) => parse_u64(v.as_slice()),
            None => None,
        },
        None => None,
    }
}

/// The value of the first line containing `key`, empty when it has none.
fn report_text_exec(ls: &[Vec<char>], key: &str) -> (r: Option<String>)
    ensures
        match (match first_line_with(views(ls@), key@) {
            Some(l) => match field_value(l) {
                Some(v) => Some(v),
                None => Some(seq![]),
            },
            None => None,
        }) {
            Some(t) => r matches Some(s) && s@ == t,
            None => r is None,
        },
{
    match find_line_with(ls, key) {
        Some(i) => match field_value_of(ls[i].as_slice()) {
            Some(v) => Some(string_from_chars(v.as_slice())),
            None => Some(String::new()),
        },
        None => None,
    }
}

impl IntelProvider {
    /// Creates the provider.
    pub fn new() -> (r: Self) {
        IntelProvider
    }

    /// The vendor this provider serves: Intel, kind unknown.
    pub fn get_vendor(&self) -> (r: Vendor)
        ensures
            r == Vendor::Intel(IntelGpuType::Unknown),
    {
        Vendor::Intel(IntelGpuType::Unknown)
    }

    /// The kind of Intel GPU named `name`.
    pub fn determine_intel_gpu_type(&self, name: &str) -> (r: IntelGpuType)
        ensures
            r == intel_gpu_type_spec(name@),
    {
        determine_intel_gpu_type_from_name(name)
    }

    /// Shared memory available to an integrated GPU, from the
    /// computer-system report.
    pub fn get_system_shared_memory(&self, computer_system: &str) -> (r: Option<u32>)
        ensures
            r == shared_memory_spec(computer_system@),
    {
        let cs = chars_of(computer_system);
        let ls = split_lines(cs.as_slice());
        match report_number_exec(ls.as_slice(), "TotalPhysicalMemory") {
            Some(b) => Some((b / 2 / 1024 / 1024) as u32),
            None => None,
        }
    }

    /// Total memory of the GPU, in MB.
    pub fn get_memory_total(
        &self,
        gpu_type: &IntelGpuType,
        wmi_output: &str,
        computer_system: Option<&str>,
    ) -> (r: Option<u32>)
        ensures
            r == intel_memory_spec(
                *gpu_type,
                wmi_output@,
                match computer_system {
                    Some(c) => Some(c@),
                    None => None,
                },
            ),
    {
        match gpu_type {
            IntelGpuType::Integrated => match computer_system {
                Some(c) => self.get_system_shared_memory(c),
                None => None,
            },
            _ => {
                let cs = chars_of(wmi_output);
                let ls = split_lines(cs.as_slice());
                match report_number_exec(ls.as_slice(), "AdapterRAM") {
                    Some(b) => Some((b / 1024 / 1024) as u32),
                    None => None,
                }
            },
        }
    }

    /// The GPU described by a video-controller report; `computer_system` is
    /// the computer-system report, used for an integrated GPU's memory.
    pub fn parse_gpu_info(&self, output_str: &str, computer_system: Option<&str>) -> (r: Option<
        GpuRecord,
    >)
        ensures
            r matches Some(g) && g@ == intel_record_spec(
                output_str@,
                match computer_system {
                    Some(c) => Some(c@),
                    None => None,
                },
            ),
    {
        let cs = chars_of(output_str);
        let ls = split_lines(cs.as_slice());
        let gpu_name = match report_text_exec(ls.as_slice(), "Name") {
            Some(n) => n,
            None => String::from_str("Intel GPU"),
        };
        let gpu_type = self.determine_intel_gpu_type(gpu_name.as_str());
        let driver_version = report_text_exec(ls.as_slice(), "DriverVersion");
        let memory_total = self.get_memory_total(&gpu_type, output_str, computer_system);
        let status = match report_text_exec(ls.as_slice(), "Status") {
            Some(s) => {
                let ok = String::from_str("OK");
                Some(s == ok)
            },
            None => None,
        };
        let mut gpu = GpuRecord::write_vendor(Vendor::Intel(gpu_type));
        gpu.name_gpu = Some(gpu_name);
        gpu.driver_version = driver_version;
        gpu.memory_total = memory_total;
        gpu.active = status;
        Some(gpu)
    }
}

impl Default for IntelProvider {
    fn default() -> (r: Self) {
        Self::new()
    }
}

} // verus!
