//! Parsing of the macOS `system_profiler` report and identification of Apple
//! Silicon GPUs.
//!
//! Running the system commands is the caller's part; the functions here take
//! their output.
use vstd::prelude::*;
use crate::gpu_info::{GpuRecord, GpuRecordView, opt_view};
use crate::text::{
    chars_of, contains, find, find_spec, lemma_find_from, has_infix, has_prefix, has_suffix, lower, lowered,
    lines, parse_u32, parse_u32_spec, parse_u32_trimmed, split_lines, split_words, starts_with,
    ends_with, string_from_chars, strip_around, stripped_around, strip_suffixes,
    strip_suffixes_from, trim, trim_bounds, trimmed, views, words, slice_to_vec,
};
use crate::vendor::{Vendor, determine_vendor_from_name, vendor_from_name_spec};

verus! {

/// An optional natural number as an optional `u32` (values beyond `u32`
/// do not occur where this is used).
pub open spec fn to_u32(o: Option<nat>) -> Option<u32> {
    match o {
        Some(v) => Some(v as u32),
        None => None,
    }
}

/// The text of an XML `<string>` element line: the line without its leading
/// `<string>` and trailing `</string>` tags (repeated tags stripped too).
pub open spec fn extract_string_value_spec(line: Seq<char>) -> Option<Seq<char>> {
    if has_prefix(line, "<string>"@) && has_suffix(line, "</string>"@) {
        Some(strip_around(line, "<string>"@, "</string>"@))
    } else {
        None
    }
}

/// The memory size, in GB, written in a word such as `10GB` or `2gb`.
pub open spec fn vram_word_spec(w: Seq<char>) -> Option<u32> {
    if has_suffix(w, "GB"@) || has_suffix(w, "gb"@) {
        to_u32(parse_u32_spec(strip_suffixes(strip_suffixes(w, "GB"@), "gb"@)))
    } else {
        None
    }
}

/// The memory size of the first word that states one.
pub open spec fn first_vram(ws: Seq<Seq<char>>) -> Option<u32>
    decreases ws.len(),
{
    if ws.len() == 0 {
        None
    } else {
        match vram_word_spec(ws[0]) {
            Some(v) => Some(v),
            None => first_vram(ws.drop_first()),
        }
    }
}

/// The memory size (GB) stated in a GPU name, as in "Radeon Pro 8GB".
pub open spec fn vram_from_name_spec(name: Seq<char>) -> Option<u32> {
    first_vram(words(name))
}

/// The number written before the first occurrence of `unit` (ASCII case
/// ignored), surrounding whitespace removed.
pub open spec fn number_before_unit(s: Seq<char>, unit: Seq<char>) -> Option<u32> {
    match find_spec(lower(s), unit) {
        Some(i) => to_u32(parse_u32_spec(trim(s.subrange(0, i)))),
        None => None,
    }
}

/// The size in GB of a VRAM string: megabytes ("4096 MB") rounded to the
/// nearest gigabyte, or gigabytes ("8 GB").
pub open spec fn vram_string_spec(s: Seq<char>) -> Option<u32> {
    match number_before_unit(s, "mb"@) {
        Some(v) => Some(((v + 512) / 1024) as u32),
        None => number_before_unit(s, "gb"@),
    }
}

/// A clock speed as read from its text.
#[derive(Debug, Clone, PartialEq, Eq)]
pub enum ClockReading {
    /// A speed given in MHz.
    Mhz(u32),
    /// A speed given in GHz: the text of the number before the unit.
    Ghz(String),
    /// No speed could be read.
    Unparsed,
}

/// Whether `r` is the reading of the clock text `s`: MHz when a number
/// precedes "mhz"; otherwise the text before "ghz" when that unit occurs;
/// otherwise unparsed (units with ASCII case ignored).
pub open spec fn clock_reading_of(s: Seq<char>, r: ClockReading) -> bool {
    match number_before_unit(s, "mhz"@) {
        Some(v) => r == ClockReading::Mhz(v),
        None => match find_spec(lower(s), "ghz"@) {
            Some(i) => r matches ClockReading::Ghz(t) && t@ == trim(s.subrange(0, i)),
            None => r is Unparsed,
        },
    }
}

/// The GPU name and core count of an Apple chip, from the CPU brand text.
pub open spec fn apple_gpu_spec(cpu: Seq<char>) -> (Seq<char>, Option<u32>) {
    if has_infix(cpu, "M3"@) {
        if has_infix(cpu, "Pro"@) {
            ("Apple M3 Pro GPU"@, Some(18u32))
        } else if has_infix(cpu, "Max"@) {
            ("Apple M3 Max GPU"@, Some(40u32))
        } else {
            ("Apple M3 GPU"@, Some(10u32))
        }
    } else if has_infix(cpu, "M2"@) {
        if has_infix(cpu, "Pro"@) {
            ("Apple M2 Pro GPU"@, Some(19u32))
        } else if has_infix(cpu, "Max"@) {
            ("Apple M2 Max GPU"@, Some(38u32))
        } else {
            ("Apple M2 GPU"@, Some(8u32))
        }
    } else if has_infix(cpu, "M1"@) {
        if has_infix(cpu, "Pro"@) {
            ("Apple M1 Pro GPU"@, Some(16u32))
        } else if has_infix(cpu, "Max"@) {
            ("Apple M1 Max GPU"@, Some(32u32))
        } else {
            ("Apple M1 GPU"@, Some(8u32))
        }
    } else {
        ("Apple Silicon GPU"@, None)
    }
}

/// The chip generation a CPU brand text names: the first of `M3`, `M2` and
/// `M1` that it contains.
pub open spec fn chip_generation(cpu: Seq<char>) -> Option<Seq<char>> {
    if has_infix(cpu, "M3"@) {
        Some("M3"@)
    } else if has_infix(cpu, "M2"@) {
        Some("M2"@)
    } else if has_infix(cpu, "M1"@) {
        Some("M1"@)
    } else {
        None
    }
}

/// The chip variant a CPU brand text names, as it follows the generation in
/// a GPU name: ` Pro`, else ` Max`, else nothing.
pub open spec fn chip_variant(cpu: Seq<char>) -> Seq<char> {
    if has_infix(cpu, "Pro"@) {
        " Pro"@
    } else if has_infix(cpu, "Max"@) {
        " Max"@
    } else {
        seq![]
    }
}

/// The size of the chip variant: 0 for the base chip, 1 for Pro, 2 for Max.
pub open spec fn variant_rank(cpu: Seq<char>) -> int {
    if has_infix(cpu, "Pro"@) {
        1
    } else if has_infix(cpu, "Max"@) {
        2
    } else {
        0
    }
}

/// The GPU name of an Apple chip names its generation and its variant
/// (`Apple <generation>[ Pro| Max] GPU`) and comes with a core count; a chip
/// of no known generation is `Apple Silicon GPU`, core count unknown.
pub proof fn lemma_apple_gpu_name_names_the_chip(cpu: Seq<char>)
    ensures
        chip_generation(cpu) matches Some(g) ==> (apple_gpu_spec(cpu).0 == "Apple "@ + g
            + chip_variant(cpu) + " GPU"@ && apple_gpu_spec(cpu).1 is Some),
        chip_generation(cpu) is None ==> apple_gpu_spec(cpu).0 == "Apple Silicon GPU"@
            && apple_gpu_spec(cpu).1 is None,
{
    reveal_strlit("Apple ");
    reveal_strlit(" GPU");
    reveal_strlit(" Pro");
    reveal_strlit(" Max");
    reveal_strlit("M1");
    reveal_strlit("M2");
    reveal_strlit("M3");
    reveal_strlit("Apple M1 GPU");
    reveal_strlit("Apple M1 Pro GPU");
    reveal_strlit("Apple M1 Max GPU");
    reveal_strlit("Apple M2 GPU");
    reveal_strlit("Apple M2 Pro GPU");
    reveal_strlit("Apple M2 Max GPU");
    reveal_strlit("Apple M3 GPU");
    reveal_strlit("Apple M3 Pro GPU");
    reveal_strlit("Apple M3 Max GPU");
    if let Some(g) = chip_generation(cpu) {
        assert(apple_gpu_spec(cpu).0 =~= "Apple "@ + g + chip_variant(cpu) + " GPU"@);
    }
}

/// Of two chips of the same generation, the larger variant (base, then Pro,
/// then Max) has more GPU cores.
pub proof fn lemma_apple_larger_variant_more_cores(cpu: Seq<char>, other: Seq<char>)
    requires
        chip_generation(cpu) is Some,
        chip_generation(cpu) == chip_generation(other),
        variant_rank(cpu) < variant_rank(other),
    ensures
        apple_gpu_spec(cpu).1 matches Some(a) && apple_gpu_spec(other).1 matches Some(b) && a < b,
{
    reveal_strlit("M1");
    reveal_strlit("M2");
    reveal_strlit("M3");
}

/// The estimated GPU clock of an Apple chip: 1400 MHz for M3, 1300 for M2,
/// 1200 for M1, 1000 otherwise.
pub open spec fn apple_clock_spec(cpu: Seq<char>) -> u32 {
    if has_infix(cpu, "M3"@) {
        1400
    } else if has_infix(cpu, "M2"@) {
        1300
    } else if has_infix(cpu, "M1"@) {
        1200
    } else {
        1000
    }
}

/// The estimated clock of an Apple chip depends on its generation alone,
/// is higher for a later generation, and is 1000 MHz for a chip of no known
/// generation.
pub proof fn lemma_apple_clock_by_generation(cpu: Seq<char>, other: Seq<char>)
    ensures
        chip_generation(cpu) == chip_generation(other) ==> apple_clock_spec(cpu) == apple_clock_spec(
            other,
        ),
        chip_generation(cpu) is None ==> apple_clock_spec(cpu) == 1000,
        chip_generation(cpu) == Some("M1"@) && chip_generation(other) == Some("M2"@)
            ==> apple_clock_spec(cpu) < apple_clock_spec(other),
        chip_generation(cpu) == Some("M2"@) && chip_generation(other) == Some("M3"@)
            ==> apple_clock_spec(cpu) < apple_clock_spec(other),
{
    reveal_strlit("M1");
    reveal_strlit("M2");
    reveal_strlit("M3");
    assert("M1"@[1] != "M2"@[1] && "M1"@[1] != "M3"@[1] && "M2"@[1] != "M3"@[1]);
}

/// A GPU found in a `system_profiler` report: its record, and the text of
/// its bus speed when the report gives one. The record's core clock is the
/// speed when it is given in MHz; a speed given in GHz is left to the caller.
#[derive(Debug, Clone)]
pub struct ProfilerGpu {
    /// What the report says of the GPU.
    pub record: GpuRecord,
    /// The last bus-speed value of the GPU's entry.
    pub bus_speed: Option<String>,
}

/// The abstract content of a `ProfilerGpu`.
pub struct ProfilerGpuView {
    /// The record's view.
    pub record: GpuRecordView,
    /// The bus-speed text.
    pub bus_speed: Option<Seq<char>>,
}

impl View for ProfilerGpu {
    type V = ProfilerGpuView;

    open spec fn view(&self) -> ProfilerGpuView {
        ProfilerGpuView { record: self.record@, bus_speed: opt_view(self.bus_speed) }
    }
}

/// The facts gathered while reading one `<dict>` entry of the report.
pub struct DictState {
    /// GPU name (from the model key).
    pub name: Option<Seq<char>>,
    /// Vendor recognised from the name.
    pub vendor: Vendor,
    /// Activity (set when a model is read).
    pub active: Option<bool>,
    /// Memory size in GB.
    pub memory_total: Option<u32>,
    /// Bus speed text.
    pub bus: Option<Seq<char>>,
    /// Whether a model name was read.
    pub found: bool,
}

/// The state before any line of an entry is read.
pub open spec fn dict_start() -> DictState {
    DictState {
        name: None,
        vendor: Vendor::Unknown,
        active: None,
        memory_total: None,
        bus: None,
        found: false,
    }
}

/// The `system_profiler` key of the GPU model.
pub open spec fn model_key() -> Seq<char> {
    "<key>sppci_model</key>"@
}

/// The `system_profiler` key of the VRAM size.
pub open spec fn vram_key() -> Seq<char> {
    "<key>sppci_vram</key>"@
}

/// The `system_profiler` key of the bus speed.
pub open spec fn bus_key() -> Seq<char> {
    "<key>sppci_bus_speed</key>"@
}

/// The string value on the line after line `j`, if there is such a line and
/// it is a `<string>` element.
pub open spec fn value_after(lines: Seq<Seq<char>>, j: int) -> Option<Seq<char>> {
    if j + 1 < lines.len() {
        extract_string_value_spec(trim(lines[j + 1]))
    } else {
        None
    }
}

/// The state after reading line `j` of an entry: a model key sets the name,
/// vendor, activity and the memory stated in the name; a VRAM key sets the
/// memory from the VRAM string; a bus-speed key records the speed text.
pub open spec fn dict_step(lines: Seq<Seq<char>>, j: int, st: DictState) -> DictState {
    let t = trim(lines[j]);
    let v = value_after(lines, j);
    let st1 = if has_infix(t, model_key()) && v is Some {
        DictState {
            name: v,
            vendor: vendor_from_name_spec(v->0),
            active: Some(true),
            memory_total: vram_from_name_spec(v->0),
            found: true,
            ..st
        }
    } else {
        st
    };
    let st2 = if has_infix(t, vram_key()) && v is Some {
        DictState { memory_total: vram_string_spec(v->0), ..st1 }
    } else {
        st1
    };
    if has_infix(t, bus_key()) && v is Some {
        DictState { bus: v, ..st2 }
    } else {
        st2
    }
}

/// Reads an entry from line `j` up to its `</dict>` line (or the end): the
/// final state and the index where reading stopped.
pub open spec fn dict_run(lines: Seq<Seq<char>>, j: int, st: DictState) -> (DictState, int)
    decreases lines.len() - j,
{
    if j < 0 || j >= lines.len() || has_infix(trim(lines[j]), "</dict>"@) {
        (st, j)
    } else {
        dict_run(lines, j + 1, dict_step(lines, j, st))
    }
}

/// Reading an entry never moves backwards.
pub proof fn lemma_dict_run_forward(lines: Seq<Seq<char>>, j: int, st: DictState)
    ensures
        dict_run(lines, j, st).1 >= j,
        j <= lines.len() ==> dict_run(lines, j, st).1 <= lines.len(),
    decreases lines.len() - j,
{
    if !(j < 0 || j >= lines.len() || has_infix(trim(lines[j]), "</dict>"@)) {
        lemma_dict_run_forward(lines, j + 1, dict_step(lines, j, st));
    }
}

/// The clock, in MHz, of an optional bus-speed text.
pub open spec fn mhz_of(bus: Option<Seq<char>>) -> Option<u32> {
    match bus {
        Some(t) => number_before_unit(t, "mhz"@),
        None => None,
    }
}

/// The GPU described by a finished entry.
pub open spec fn dict_gpu(st: DictState) -> ProfilerGpuView {
    ProfilerGpuView {
        record: GpuRecordView {
            vendor: st.vendor,
            name_gpu: st.name,
            core_clock: mhz_of(st.bus),
            memory_clock: None,
            active: st.active,
            memory_total: st.memory_total,
            memory_used: None,
            driver_version: None,
            max_clock_speed: None,
        },
        bus_speed: st.bus,
    }
}

/// The GPUs of the report from line `i` on: each line holding `<dict>` starts
/// an entry, kept when it named a model; reading resumes after the entry.
pub open spec fn profiler_scan(lines: Seq<Seq<char>>, i: int) -> Seq<ProfilerGpuView>
    decreases lines.len() + 1 - i,
{
    if i < 0 || i >= lines.len() {
        seq![]
    } else if has_infix(trim(lines[i]), "<dict>"@) {
        proof {
            lemma_dict_run_forward(lines, i, dict_start());
        }
        let run = dict_run(lines, i, dict_start());
        let rest = profiler_scan(lines, run.1 + 1);
        if run.0.found {
            seq![dict_gpu(run.0)] + rest
        } else {
            rest
        }
    } else {
        profiler_scan(lines, i + 1)
    }
}

/// The GPU named `name` by the line-by-line reading of the report: vendor
/// and memory from the name, active.
pub open spec fn named_gpu(name: Seq<char>) -> ProfilerGpuView {
    ProfilerGpuView {
        record: GpuRecordView {
            vendor: vendor_from_name_spec(name),
            name_gpu: Some(name),
            core_clock: None,
            memory_clock: None,
            active: Some(true),
            memory_total: vram_from_name_spec(name),
            memory_used: None,
            driver_version: None,
            max_clock_speed: None,
        },
        bus_speed: None,
    }
}

/// The line-by-line reading of the report from line `i`: after a model key,
/// the next `<string>` line names a GPU.
pub open spec fn simple_scan(lines: Seq<Seq<char>>, i: int, in_section: bool) -> Seq<
    ProfilerGpuView,
>
    decreases lines.len() - i,
{
    if i < 0 || i >= lines.len() {
        seq![]
    } else {
        let t = trim(lines[i]);
        if has_infix(t, model_key()) {
            simple_scan(lines, i + 1, true)
        } else if in_section && has_prefix(t, "<string>"@) && has_suffix(t, "</string>"@) {
            seq![named_gpu(strip_around(t, "<string>"@, "</string>"@))] + simple_scan(
                lines,
                i + 1,
                false,
            )
        } else {
            simple_scan(lines, i + 1, in_section)
        }
    }
}

/// The GPUs of a `system_profiler -xml SPDisplaysDataType` report: those of
/// its `<dict>` entries, or, when no entry names a model, those of the
/// line-by-line reading.
pub open spec fn profiler_report_spec(xml: Seq<char>) -> Seq<ProfilerGpuView> {
    let ls = lines(xml);
    if profiler_scan(ls, 0).len() > 0 {
        profiler_scan(ls, 0)
    } else {
        simple_scan(ls, 0, false)
    }
}

/// Views of a vector of found GPUs.
pub open spec fn gpu_views(v: Seq<ProfilerGpu>) -> Seq<ProfilerGpuView> {
    v.map_values(|g: ProfilerGpu| g@)
}

/// Functions of the macOS provider that read GPU facts from text.
pub struct MacOSGpuProvider;

fn has_key(s: &[char], key: &str) -> (r: bool)
    ensures
        r == has_infix(s@, key@),
{
    let k = chars_of(key);
    contains(s, k.as_slice())
}

fn number_before_unit_exec(s: &[char], low: &[char], unit: &str) -> (r: Option<u32>)
    requires
        low@ == lower(s@),
    ensures
        r == number_before_unit(s@, unit@),
{
    let u = chars_of(unit);
    proof {
        lemma_find_from(low@, u@, 0);
    }
    match find(low, u.as_slice()) {
        Some(pos) => {
            let part = slice_to_vec(s, 0, pos);
            match parse_u32_trimmed(part.as_slice()) {
                Some(v) => Some(v),
                None => None,
            }
        },
        None => None,
    }
}

impl MacOSGpuProvider {
    /// The text inside a `<string>...</string>` line, if the line is one.
    pub fn extract_string_value(line: &str) -> (r: Option<String>)
        ensures
            opt_view(r) == extract_string_value_spec(line@),
    {
        let cs = chars_of(line);
        let open = chars_of("<string>");
        let close = chars_of("</string>");
        if starts_with(cs.as_slice(), open.as_slice()) && ends_with(
            cs.as_slice(),
            close.as_slice(),
        ) {
            let inner = stripped_around(cs.as_slice(), open.as_slice(), close.as_slice());
            Some(string_from_chars(inner.as_slice()))
        } else {
            None
        }
    }

    /// The vendor named by a GPU name.
    pub fn determine_vendor(name: &str) -> (r: Vendor)
        ensures
            r == vendor_from_name_spec(name@),
    {
        determine_vendor_from_name(name)
    }

    /// The memory size in GB stated by a word of the GPU name ("10GB").
    pub fn extract_vram_from_name(name: &str) -> (r: Option<u32>)
        ensures
            r == vram_from_name_spec(name@),
    {
        let cs = chars_of(name);
        let ws = split_words(cs.as_slice());
        let upper = chars_of("GB");
        let low = chars_of("gb");
        let mut i: usize = 0;
        assert(views(ws@).subrange(0, ws@.len() as int) =~= views(ws@));
        while i < ws.len()
            invariant
                i <= ws@.len(),
                views(ws@) == words(name@),
                upper@ == "GB"@,
                low@ == "gb"@,
                first_vram(views(ws@)) == first_vram(views(ws@).subrange(i as int, ws@.len() as int)),
            decreases ws@.len() - i,
        {
            let ghost rest = views(ws@).subrange(i as int, ws@.len() as int);
            assert(rest[0] == ws@[i as int]@);
            assert(rest.drop_first() =~= views(ws@).subrange(i + 1, ws@.len() as int));
            let w = ws[i].as_slice();
            if ends_with(w, upper.as_slice()) || ends_with(w, low.as_slice()) {
                let e1 = strip_suffixes_from(w, 0, w.len(), upper.as_slice());
                let e2 = strip_suffixes_from(w, 0, e1, low.as_slice());
                assert(w@.subrange(0, w@.len() as int) =~= w@);
                let digits = slice_to_vec(w, 0, e2);
                if let Some(v) = parse_u32(digits.as_slice()) {
                    return Some(v);
                }
            }
            i = i + 1;
        }
        assert(views(ws@).subrange(i as int, ws@.len() as int) =~= Seq::<Seq<char>>::empty());
        None
    }

    /// The size in GB of a VRAM string such as "4096 MB" or "8 GB".
    pub fn parse_vram_string(vram_str: &str) -> (r: Option<u32>)
        ensures
            r == vram_string_spec(vram_str@),
    {
        let cs = chars_of(vram_str);
        let low = lowered(cs.as_slice());
        if let Some(mb) = number_before_unit_exec(cs.as_slice(), low.as_slice(), "mb") {
            return Some(((mb as u64 + 512) / 1024) as u32);
        }
        number_before_unit_exec(cs.as_slice(), low.as_slice(), "gb")
    }

    /// The reading of a clock speed text such as "1200 MHz" or "2.5 GHz".
    pub fn parse_clock_speed(speed_str: &str) -> (r: ClockReading)
        ensures
            clock_reading_of(speed_str@, r),
    {
        let cs = chars_of(speed_str);
        let low = lowered(cs.as_slice());
        if let Some(mhz) = number_before_unit_exec(cs.as_slice(), low.as_slice(), "mhz") {
            return ClockReading::Mhz(mhz);
        }
        let g = chars_of("ghz");
        proof {
            lemma_find_from(low@, g@, 0);
        }
        match find(low.as_slice(), g.as_slice()) {
            Some(pos) => {
                let part = slice_to_vec(cs.as_slice(), 0, pos);
                let t = trimmed(part.as_slice());
                ClockReading::Ghz(string_from_chars(t.as_slice()))
            },
            None => ClockReading::Unparsed,
        }
    }

    /// The name and GPU core count of an Apple chip named in the CPU brand
    /// text (core count unknown for an unrecognised chip).
    pub fn determine_apple_gpu_info(cpu_info: &str) -> (r: (String, Option<u32>))
        ensures
            r.0@ == apple_gpu_spec(cpu_info@).0,
            r.1 == apple_gpu_spec(cpu_info@).1,
    {
        let cs = chars_of(cpu_info);
        let c = cs.as_slice();
        if has_key(c, "M3") {
            if has_key(c, "Pro") {
                (String::from_str("Apple M3 Pro GPU"), Some(18))
            } else if has_key(c, "Max") {
                (String::from_str("Apple M3 Max GPU"), Some(40))
            } else {
                (String::from_str("Apple M3 GPU"), Some(10))
            }
        } else if has_key(c, "M2") {
            if has_key(c, "Pro") {
                (String::from_str("Apple M2 Pro GPU"), Some(19))
            } else if has_key(c, "Max") {
                (String::from_str("Apple M2 Max GPU"), Some(38))
            } else {
                (String::from_str("Apple M2 GPU"), Some(8))
            }
        } else if has_key(c, "M1") {
            if has_key(c, "Pro") {
                (String::from_str("Apple M1 Pro GPU"), Some(16))
            } else if has_key(c, "Max") {
                (String::from_str("Apple M1 Max GPU"), Some(32))
            } else {
                (String::from_str("Apple M1 GPU"), Some(8))
            }
        } else {
            (String::from_str("Apple Silicon GPU"), None)
        }
    }

    /// The estimated GPU clock, in MHz, of the Apple chip named in the CPU
    /// brand text.
    pub fn estimate_apple_gpu_clock(cpu_info: &str) -> (r: Option<u32>)
        ensures
            r == Some(apple_clock_spec(cpu_info@)),
    {
        let cs = chars_of(cpu_info);
        let c = cs.as_slice();
        if has_key(c, "M3") {
            Some(1400)
        } else if has_key(c, "M2") {
            Some(1300)
        } else if has_key(c, "M1") {
            Some(1200)
        } else {
            Some(1000)
        }
    }
}


/// The exec-side state of an entry being read, and the abstract state it
/// stands for.
pub open spec fn state_matches(
    st: DictState,
    name: Option<String>,
    vendor: Vendor,
    active: Option<bool>,
    memory_total: Option<u32>,
    bus: Option<String>,
    found: bool,
) -> bool {
    &&& st.name == opt_view(name)
    &&& st.vendor == vendor
    &&& st.active == active
    &&& st.memory_total == memory_total
    &&& st.bus == opt_view(bus)
    &&& st.found == found
}

fn value_after_exec(lines: &[Vec<char>], j: usize) -> (r: Option<String>)
    requires
        j < lines@.len(),
    ensures
        opt_view(r) == value_after(views(lines@), j as int),
{
    if j < lines.len() - 1 {
        let t = trimmed(lines[j + 1].as_slice());
        assert(views(lines@)[j + 1] == lines@[j + 1]@);
        let ts = string_from_chars(t.as_slice());
        MacOSGpuProvider::extract_string_value(ts.as_str())
    } else {
        None
    }
}

impl MacOSGpuProvider {
    /// Reads the `<dict>` entry that starts at line `*index`, leaving
    /// `*index` at its `</dict>` line (or the end); the GPU it describes when
    /// it names a model.
    pub fn parse_gpu_dict(lines: &[Vec<char>], index: &mut usize) -> (r: Option<ProfilerGpu>)
        ensures
            ({
                let run = dict_run(views(lines@), *old(index) as int, dict_start());
                &&& *final(index) as int == run.1
                &&& run.0.found ==> (r matches Some(g) && g@ == dict_gpu(run.0))
                &&& !run.0.found ==> r is None
            }),
    {
        let ghost ls = views(lines@);
        let ghost start = *index as int;
        let ghost mut st = dict_start();
        let mut name: Option<String> = None;
        let mut vendor = Vendor::Unknown;
        let mut active: Option<bool> = None;
        let mut memory_total: Option<u32> = None;
        let mut bus: Option<String> = None;
        let mut found = false;
        let close = chars_of("</dict>");
        if *index >= lines.len() {
            return None;
        }
        loop
            invariant
                ls == views(lines@),
                close@ == "</dict>"@,
                *index <= lines@.len(),
                dict_run(ls, start, dict_start()) == dict_run(ls, *index as int, st),
                state_matches(st, name, vendor, active, memory_total, bus, found),
            ensures
                dict_run(ls, start, dict_start()) == (st, *index as int),
                state_matches(st, name, vendor, active, memory_total, bus, found),
            decreases lines@.len() - *index,
        {
            if *index >= lines.len() {
                break ;
            }
            {
                let i = *index;
                let t = trimmed(lines[i].as_slice());
                assert(ls[i as int] == lines@[i as int]@);
                if contains(t.as_slice(), close.as_slice()) {
                    break ;
                }
                let v = value_after_exec(lines, i);
                let is_model = has_key(t.as_slice(), "<key>sppci_model</key>");
                let is_vram = has_key(t.as_slice(), "<key>sppci_vram</key>");
                let is_bus = has_key(t.as_slice(), "<key>sppci_bus_speed</key>");
                if is_model {
                    if let Some(n) = &v {
                        vendor = determine_vendor_from_name(n.as_str());
                        active = Some(true);
                        memory_total = Self::extract_vram_from_name(n.as_str());
                        name = Some(n.clone());
                        found = true;
                    }
                }
                if is_vram {
                    if let Some(vs) = &v {
                        memory_total = Self::parse_vram_string(vs.as_str());
                    }
                }
                if is_bus {
                    if let Some(bs) = &v {
                        bus = Some(bs.clone());
                    }
                }
                proof {
                    st = dict_step(ls, i as int, st);
                }
                *index = i + 1;
            }
        }
        if found {
            let clock = match &bus {
                Some(b) => Self::clock_mhz(b.as_str()),
                None => None,
            };
            let mut record = GpuRecord::write_vendor(vendor);
            record.name_gpu = name;
            record.active = active;
            record.memory_total = memory_total;
            record.core_clock = clock;
            Some(ProfilerGpu { record, bus_speed: bus })
        } else {
            None
        }
    }

    /// The clock in MHz given by a text such as "1200 MHz".
    fn clock_mhz(speed_str: &str) -> (r: Option<u32>)
        ensures
            r == number_before_unit(speed_str@, "mhz"@),
    {
        let cs = chars_of(speed_str);
        let low = lowered(cs.as_slice());
        number_before_unit_exec(cs.as_slice(), low.as_slice(), "mhz")
    }
}

impl MacOSGpuProvider {
    /// The GPUs of a `system_profiler -xml SPDisplaysDataType` report.
    pub fn parse_system_profiler_output(xml_output: &str) -> (r: Vec<ProfilerGpu>)
        ensures
            gpu_views(r@) == profiler_report_spec(xml_output@),
    {
        let cs = chars_of(xml_output);
        let ls = split_lines(cs.as_slice());
        let ghost l = lines(xml_output@);
        let open = chars_of("<dict>");
        let mut gpus: Vec<ProfilerGpu> = Vec::new();
        let mut i: usize = 0;
        while i < ls.len()
            invariant
                views(ls@) == l,
                open@ == "<dict>"@,
                i <= ls@.len(),
                gpu_views(gpus@) + profiler_scan(l, i as int) == profiler_scan(l, 0),
            decreases ls@.len() - i,
        {
            let t = trimmed(ls[i].as_slice());
            assert(l[i as int] == ls@[i as int]@);
            if contains(t.as_slice(), open.as_slice()) {
                let mut j = i;
                let g = Self::parse_gpu_dict(ls.as_slice(), &mut j);
                proof {
                    lemma_dict_run_forward(l, i as int, dict_start());
                }
                let ghost before = gpu_views(gpus@);
                match g {
                    Some(gpu) => {
                        gpus.push(gpu);
                        assert(gpu_views(gpus@) =~= before + seq![gpus@.last()@]);
                    },
                    None => {},
                }
                if j >= ls.len() {
                    assert(profiler_scan(l, j + 1) =~= Seq::<ProfilerGpuView>::empty());
                    assert(profiler_scan(l, ls@.len() as int) =~= Seq::<ProfilerGpuView>::empty());
                    i = ls.len();
                } else {
                    i = j + 1;
                }
            } else {
                i = i + 1;
            }
        }
        assert(profiler_scan(l, i as int) =~= Seq::<ProfilerGpuView>::empty());
        assert(gpu_views(gpus@) + Seq::<ProfilerGpuView>::empty() =~= gpu_views(gpus@));
        if gpus.len() == 0 {
            return Self::simple_parse_system_profiler(xml_output);
        }
        gpus
    }

    /// The line-by-line reading of a `system_profiler` report: after a model
    /// key, the next `<string>` line names a GPU.
    pub fn simple_parse_system_profiler(xml_output: &str) -> (r: Vec<ProfilerGpu>)
        ensures
            gpu_views(r@) == simple_scan(lines(xml_output@), 0, false),
    {
        let cs = chars_of(xml_output);
        let ls = split_lines(cs.as_slice());
        let ghost l = lines(xml_output@);
        let open = chars_of("<string>");
        let close = chars_of("</string>");
        let mut gpus: Vec<ProfilerGpu> = Vec::new();
        let mut in_section = false;
        let mut i: usize = 0;
        while i < ls.len()
            invariant
                views(ls@) == l,
                open@ == "<string>"@,
                close@ == "</string>"@,
                i <= ls@.len(),
                gpu_views(gpus@) + simple_scan(l, i as int, in_section) == simple_scan(l, 0, false),
            decreases ls@.len() - i,
        {
            let t = trimmed(ls[i].as_slice());
            assert(l[i as int] == ls@[i as int]@);
            if has_key(t.as_slice(), "<key>sppci_model</key>") {
                in_section = true;
            } else if in_section && starts_with(t.as_slice(), open.as_slice()) && ends_with(
                t.as_slice(),
                close.as_slice(),
            ) {
                let inner = stripped_around(t.as_slice(), open.as_slice(), close.as_slice());
                let name = string_from_chars(inner.as_slice());
                let mut record = GpuRecord::write_vendor(determine_vendor_from_name(name.as_str()));
                record.memory_total = Self::extract_vram_from_name(name.as_str());
                record.active = Some(true);
                record.name_gpu = Some(name);
                let ghost before = gpu_views(gpus@);
                gpus.push(ProfilerGpu { record, bus_speed: None });
                assert(gpu_views(gpus@) =~= before + seq![named_gpu(inner@)]);
                in_section = false;
            }
            i = i + 1;
        }
        assert(simple_scan(l, i as int, in_section) =~= Seq::<ProfilerGpuView>::empty());
        assert(gpu_views(gpus@) + Seq::<ProfilerGpuView>::empty() =~= gpu_views(gpus@));
        gpus
    }
}

/// Unified memory in GB from the output of `sysctl -n hw.memsize` (bytes).
pub open spec fn unified_memory_spec(memsize: Seq<char>) -> Option<u32> {
    match crate::text::parse_u64_spec(trim(memsize)) {
        Some(b) => Some((b / 1024 / 1024 / 1024) as u32),
        None => None,
    }
}

/// The machine has Apple Silicon: `uname -m` says `arm64`, or the CPU brand
/// names Apple.
pub open spec fn is_apple_silicon_spec(arch: Option<Seq<char>>, cpu_info: Option<Seq<char>>) -> bool {
    (match arch {
        Some(a) => trim(a) == "arm64"@,
        None => false,
    }) || (match cpu_info {
        Some(c) => has_infix(c, "Apple"@),
        None => false,
    })
}

/// The integrated GPU of an Apple Silicon machine, from the outputs of
/// `uname -m`, `sysctl -n machdep.cpu.brand_string` and
/// `sysctl -n hw.memsize` (each when the command ran).
pub open spec fn apple_silicon_gpu_spec(
    arch: Option<Seq<char>>,
    cpu_info: Option<Seq<char>>,
    memsize: Option<Seq<char>>,
) -> Option<GpuRecordView> {
    if is_apple_silicon_spec(arch, cpu_info) {
        let cpu = match cpu_info {
            Some(c) => c,
            None => seq![],
        };
        Some(
            GpuRecordView {
                vendor: Vendor::Apple,
                name_gpu: Some(apple_gpu_spec(cpu).0),
                core_clock: Some(apple_clock_spec(cpu)),
                memory_clock: None,
                active: Some(true),
                memory_total: match memsize {
                    Some(m) => unified_memory_spec(m),
                    None => None,
                },
                memory_used: None,
                driver_version: None,
                max_clock_speed: None,
            },
        )
    } else {
        None
    }
}

impl MacOSGpuProvider {
    /// Unified memory in GB from the output of `sysctl -n hw.memsize`.
    pub fn get_unified_memory_size(memsize: &str) -> (r: Option<u32>)
        ensures
            r == unified_memory_spec(memsize@),
    {
        let cs = chars_of(memsize);
        match crate::text::parse_u64_trimmed(cs.as_slice()) {
            Some(b) => Some((b / 1024 / 1024 / 1024) as u32),
            None => None,
        }
    }

    /// The integrated GPU of an Apple Silicon machine, `None` on other
    /// machines.
    pub fn detect_apple_silicon_gpu(arch: Option<&str>, cpu_info: Option<&str>, memsize: Option<
        &str,
    >) -> (r: Option<GpuRecord>)
        ensures
            match apple_silicon_gpu_spec(
                match arch {
                    Some(a) => Some(a@),
                    None => None,
                },
                match cpu_info {
                    Some(c) => Some(c@),
                    None => None,
                },
                match memsize {
                    Some(m) => Some(m@),
                    None => None,
                },
            ) {
                Some(v) => r matches Some(g) && g@ == v,
                None => r is None,
            },
    {
        let arm = match arch {
            Some(a) => {
                let cs = chars_of(a);
                let t = trimmed(cs.as_slice());
                let arm64 = chars_of("arm64");
                let same = t.len() == arm64.len() && starts_with(t.as_slice(), arm64.as_slice());
                proof {
                    if t@ == arm64@ {
                        assert(t@.subrange(0, arm64@.len() as int) =~= t@);
                    }
                }
                assert(same ==> t@ =~= arm64@);
                same
            },
            None => false,
        };
        let apple_cpu = match cpu_info {
            Some(c) => has_key(chars_of(c).as_slice(), "Apple"),
            None => false,
        };
        if !(arm || apple_cpu) {
            return None;
        }
        let cpu: &str = match cpu_info {
            Some(c) => c,
            None => "",
        };
        proof {
            reveal_strlit("");
            assert(""@ =~= Seq::<char>::empty());
        }
        assert(arm == (match arch {
            Some(a) => trim(a@) == "arm64"@,
            None => false,
        }));
        assert(apple_cpu == (match cpu_info {
            Some(c) => has_infix(c@, "Apple"@),
            None => false,
        }));
        let (name, _cores) = Self::determine_apple_gpu_info(cpu);
        let memory_total = match memsize {
            Some(m) => Self::get_unified_memory_size(m),
            None => None,
        };
        Some(
            GpuRecord {
                vendor: Vendor::Apple,
                name_gpu: Some(name),
                core_clock: Self::estimate_apple_gpu_clock(cpu),
                memory_clock: None,
                active: Some(true),
                memory_total,
                memory_used: None,
                driver_version: None,
                max_clock_speed: None,
            },
        )
    }
}

/// A GPU of the report, taken as active when the report did not say.
pub open spec fn assume_active(g: GpuRecord) -> GpuRecord {
    GpuRecord {
        active: match g.active {
            Some(a) => Some(a),
            None => Some(true),
        },
        ..g
    }
}

impl MacOSGpuProvider {
    /// All GPUs: those of the `system_profiler` report (taken as active when
    /// it does not say), or, when it lists none, the Apple Silicon GPU if
    /// there is one.
    pub fn detect_all_gpus(reported: Vec<GpuRecord>, apple_silicon: Option<GpuRecord>) -> (r: Vec<
        GpuRecord,
    >)
        ensures
            reported@.len() > 0 ==> r@ == reported@.map_values(|g: GpuRecord| assume_active(g)),
            reported@.len() == 0 ==> match apple_silicon {
                Some(g) => r@ == seq![g],
                None => r@.len() == 0,
            },
    {
        let mut out: Vec<GpuRecord> = Vec::new();
        let mut rest = reported;
        let ghost all = rest@;
        let n = rest.len();
        let mut i: usize = 0;
        while rest.len() > 0
            invariant
                n == all.len(),
                i + rest@.len() == all.len(),
                rest@ == all.subrange(i as int, all.len() as int),
                out@ == all.subrange(0, i as int).map_values(|g: GpuRecord| assume_active(g)),
            decreases rest@.len(),
        {
            let mut g = rest.remove(0);
            assert(g == all[i as int]);
            if g.active.is_none() {
                g.active = Some(true);
            }
            out.push(g);
            i = i + 1;
            assert(out@ =~= all.subrange(0, i as int).map_values(|g: GpuRecord| assume_active(g)));
            assert(rest@ =~= all.subrange(i as int, all.len() as int));
        }
        assert(all.subrange(0, i as int) =~= all);
        if out.len() == 0 {
            match apple_silicon {
                Some(g) => out.push(g),
                None => {},
            }
        }
        out
    }
}

impl MacOSGpuProvider {
    /// Creates the provider.
    pub fn new() -> (r: Self) {
        MacOSGpuProvider
    }

    /// The vendor this provider serves: any, so unknown.
    pub fn get_vendor(&self) -> (r: Vendor)
        ensures
            r == Vendor::Unknown,
    {
        Vendor::Unknown
    }

    /// Refreshes a GPU: it is taken as active, everything else is kept
    /// (utilization and temperature are readings of their own).
    pub fn update_gpu_info(gpu: &mut GpuRecord) -> (r: Result<(), crate::gpu_info::GpuError>)
        ensures
            r is Ok,
            *final(gpu) == (GpuRecord { active: Some(true), ..*old(gpu) }),
    {
        gpu.active = Some(true);
        Ok(())
    }
}

} // verus!
