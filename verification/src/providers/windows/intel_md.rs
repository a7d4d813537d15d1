//! The decisions of the Intel Metrics Discovery (MD) tier of the Windows
//! Intel provider: which driver directory holds the API, what a status code
//! means, which metric of the device's groups and sets is wanted, the steps
//! of reading a metric through an I/O stream, and which calculated value is
//! the reading.
//!
//! Loading `igdmd64.dll` and calling through its interfaces is the caller's
//! part; it performs each action decided here and reports how it went.
use vstd::prelude::*;
use crate::gpu_info::{GpuError, GpuRecord};
use crate::text::{
    chars_of, contains, decimal, has_infix, has_prefix, push_decimal, push_str_chars,
    starts_with, string_from_chars,
};

verus! {

/// The status code of a call that succeeded (`CC_OK`, also the legacy
/// `MD_SUCCESS`).
pub const CC_OK: i32 = 0;

/// The status code of a general failure.
pub const CC_ERROR_GENERAL: i32 = 42;

/// The status code of an invalid parameter.
pub const CC_ERROR_INVALID_PARAMETER: i32 = 40;

/// The status code of an unsupported request.
pub const CC_ERROR_NOT_SUPPORTED: i32 = 44;

/// The legacy status code of a general failure.
pub const MD_ERROR_GENERAL: i32 = -1;

/// The legacy status code of an invalid parameter.
pub const MD_ERROR_INVALID_PARAMETER: i32 = -2;

/// The legacy status code of an unsupported request.
pub const MD_ERROR_NOT_SUPPORTED: i32 = -3;

/// The decimal text of a signed number.
pub open spec fn signed_decimal(n: int) -> Seq<char> {
    if n < 0 {
        seq!['-'] + decimal((-n) as nat)
    } else {
        decimal(n as nat)
    }
}

/// The message of the `FeatureNotEnabled` error an MD status `code` other
/// than success and general failure stands for, the failed call named by
/// `context`.
pub open spec fn md_error_message(code: i32, context: Seq<char>) -> Seq<char> {
    if code == CC_ERROR_INVALID_PARAMETER || code == MD_ERROR_INVALID_PARAMETER {
        "Invalid parameter in "@ + context
    } else if code == CC_ERROR_NOT_SUPPORTED || code == MD_ERROR_NOT_SUPPORTED {
        "Not supported: "@ + context
    } else {
        "MD API error "@ + signed_decimal(code as int) + " in "@ + context
    }
}

/// `e` is the error an MD status `code` stands for, the failed call named by
/// `context`: `GpuNotActive` for success (no failure to report), a missing
/// driver for general failures, and otherwise `FeatureNotEnabled` with the
/// message of `md_error_message`.
pub open spec fn is_md_error(e: GpuError, code: i32, context: Seq<char>) -> bool {
    if code == CC_OK {
        e is GpuNotActive
    } else if code == CC_ERROR_GENERAL || code == MD_ERROR_GENERAL {
        e is DriverNotInstalled
    } else {
        e matches GpuError::FeatureNotEnabled(m) && m@ == md_error_message(code, context)
    }
}

/// Appends the decimal text of `n` to `out`.
fn push_signed_decimal(n: i32, out: &mut Vec<char>)
    ensures
        final(out)@ == old(out)@ + signed_decimal(n as int),
{
    if n < 0 {
        out.push('-');
        let m: i64 = -(n as i64);
        push_decimal(m as u64, out);
        assert(final(out)@ =~= old(out)@ + signed_decimal(n as int));
    } else {
        push_decimal(n as u64, out);
    }
}

/// The error an MD status `code` stands for, the failed call named by
/// `context`.
pub fn map_md_error(code: i32, context: &str) -> (r: GpuError)
    ensures
        is_md_error(r, code, context@),
{
    if code == CC_OK {
        GpuError::GpuNotActive
    } else if code == CC_ERROR_GENERAL || code == MD_ERROR_GENERAL {
        GpuError::DriverNotInstalled
    } else if code == CC_ERROR_INVALID_PARAMETER || code == MD_ERROR_INVALID_PARAMETER {
        let mut m: Vec<char> = Vec::new();
        push_str_chars(&mut m, "Invalid parameter in ");
        push_str_chars(&mut m, context);
        GpuError::FeatureNotEnabled(string_from_chars(m.as_slice()))
    } else if code == CC_ERROR_NOT_SUPPORTED || code == MD_ERROR_NOT_SUPPORTED {
        let mut m: Vec<char> = Vec::new();
        push_str_chars(&mut m, "Not supported: ");
        push_str_chars(&mut m, context);
        GpuError::FeatureNotEnabled(string_from_chars(m.as_slice()))
    } else {
        let mut m: Vec<char> = Vec::new();
        push_str_chars(&mut m, "MD API error ");
        push_signed_decimal(code, &mut m);
        push_str_chars(&mut m, " in ");
        push_str_chars(&mut m, context);
        GpuError::FeatureNotEnabled(string_from_chars(m.as_slice()))
    }
}

/// Whether a driver directory of the driver store may hold `igdmd64.dll`:
/// its name starts with `iigd_dch` or `igdlh64`.
pub fn is_md_driver_dir(name: &str) -> (r: bool)
    ensures
        r == (has_prefix(name@, "iigd_dch"@) || has_prefix(name@, "igdlh64"@)),
{
    let cs = chars_of(name);
    let a = chars_of("iigd_dch");
    let b = chars_of("igdlh64");
    starts_with(cs.as_slice(), a.as_slice()) || starts_with(cs.as_slice(), b.as_slice())
}

/// How opening the metrics device went, from the status of
/// `OpenMetricsDevice` and whether it gave a device: the MD error of a
/// failed status, `GpuNotFound` without a device.
pub fn open_device_outcome(code: i32, device_present: bool) -> (r: Result<(), GpuError>)
    ensures
        code != CC_OK ==> (r matches Err(e) && is_md_error(e, code, "OpenMetricsDevice"@)),
        code == CC_OK && !device_present ==> r matches Err(GpuError::GpuNotFound),
        code == CC_OK && device_present ==> r is Ok,
{
    if code != CC_OK {
        return Err(map_md_error(code, "OpenMetricsDevice"));
    }
    if !device_present {
        return Err(GpuError::GpuNotFound);
    }
    Ok(())
}

/// How closing the metrics device went: nothing to close without a device,
/// `GpuNotActive` when `CloseMetricsDevice` failed.
pub fn close_device_outcome(device_present: bool, code: i32) -> (r: Result<(), GpuError>)
    ensures
        !device_present ==> r is Ok,
        device_present && code == CC_OK ==> r is Ok,
        device_present && code != CC_OK ==> r matches Err(GpuError::GpuNotActive),
{
    if !device_present || code == CC_OK {
        Ok(())
    } else {
        Err(GpuError::GpuNotActive)
    }
}

/// Records the clocks the MD API gave: each of the core, maximum and
/// memory clock that it gave replaces the one of `gpu`; everything else
/// stays.
pub fn apply_md_readings(
    gpu: &mut GpuRecord,
    core_clock: Option<u32>,
    max_clock: Option<u32>,
    memory_clock: Option<u32>,
)
    ensures
        *final(gpu) == (GpuRecord {
            core_clock: if core_clock is Some {
                core_clock
            } else {
                old(gpu).core_clock
            },
            max_clock_speed: if max_clock is Some {
                max_clock
            } else {
                old(gpu).max_clock_speed
            },
            memory_clock: if memory_clock is Some {
                memory_clock
            } else {
                old(gpu).memory_clock
            },
            ..*old(gpu)
        }),
{
    if core_clock.is_some() {
        gpu.core_clock = core_clock;
    }
    if max_clock.is_some() {
        gpu.max_clock_speed = max_clock;
    }
    if memory_clock.is_some() {
        gpu.memory_clock = memory_clock;
    }
}

/// The metric names of one concurrent group of the MD device: for each of
/// its metric sets, the symbol name of each metric, `None` where a metric or
/// its name could not be read (a group or set that could not be read has no
/// sets or metrics).
pub struct MetricGroupNames {
    /// The metric names of each set.
    pub sets: Vec<Vec<Option<String>>>,
}

/// Metric `m` of set `s` of group `g` exists and its name contains
/// `wanted`.
pub open spec fn metric_matches(
    groups: Seq<MetricGroupNames>,
    g: int,
    s: int,
    m: int,
    wanted: Seq<char>,
) -> bool {
    &&& 0 <= g < groups.len()
    &&& 0 <= s < groups[g].sets@.len()
    &&& 0 <= m < groups[g].sets@[s]@.len()
    &&& groups[g].sets@[s]@[m] matches Some(n) && has_infix(n@, wanted)
}

/// `(g, s, m)` comes before `(h, t, n)` in the order groups, then sets, then
/// metrics are searched.
pub open spec fn searched_before(g: int, s: int, m: int, h: int, t: int, n: int) -> bool {
    g < h || (g == h && s < t) || (g == h && s == t && m < n)
}

/// The message of the error for a metric that no set holds.
pub open spec fn metric_not_found_message(wanted: Seq<char>) -> Seq<char> {
    "Metric '"@ + wanted + "' not found"@
}

/// Whether the metric name `name`, if any, contains `wanted`.
fn name_contains(name: &Option<String>, wanted: &Vec<char>) -> (r: bool)
    ensures
        r == (*name matches Some(n) && has_infix(n@, wanted@)),
{
    match name {
        Some(n) => {
            let cs = chars_of(n.as_str());
            contains(cs.as_slice(), wanted.as_slice())
        },
        None => false,
    }
}

/// Finds the metric whose name contains `wanted`, searching the groups in
/// order, the sets of each group in order and the metrics of each set in
/// order: the indices of group, set and metric of the first one.
/// `GpuNotFound` when the device's groups could not be read (`None`);
/// `FeatureNotEnabled` ("Metric '…' not found") when no metric matches.
pub fn find_metric_index(groups: Option<&Vec<MetricGroupNames>>, wanted: &str) -> (r: Result<
    (usize, usize, usize),
    GpuError,
>)
    ensures
        groups is None ==> r matches Err(GpuError::GpuNotFound),
        groups matches Some(gs) ==> match r {
            Ok((g, s, m)) => metric_matches(gs@, g as int, s as int, m as int, wanted@) && forall|
                h: int,
                t: int,
                n: int,
            |
                #![trigger metric_matches(gs@, h, t, n, wanted@)]
                searched_before(h, t, n, g as int, s as int, m as int) ==> !metric_matches(
                    gs@,
                    h,
                    t,
                    n,
                    wanted@,
                ),
            Err(e) => (forall|h: int, t: int, n: int|
                !#[trigger] metric_matches(gs@, h, t, n, wanted@)) && (e matches GpuError::FeatureNotEnabled(msg)
                && msg@ == metric_not_found_message(wanted@)),
        },
{
    let gs = match groups {
        Some(gs) => gs,
        None => {
            return Err(GpuError::GpuNotFound);
        },
    };
    let w = chars_of(wanted);
    let mut g: usize = 0;
    while g < gs.len()
        invariant
            g <= gs@.len(),
            groups == Some(gs),
            w@ == wanted@,
            forall|h: int, t: int, n: int|
                #![trigger metric_matches(gs@, h, t, n, wanted@)]
                h < g ==> !metric_matches(gs@, h, t, n, wanted@),
        decreases gs@.len() - g,
    {
        let sets = &gs[g].sets;
        let mut s: usize = 0;
        while s < sets.len()
            invariant
                g < gs@.len(),
                groups == Some(gs),
                *sets == gs@[g as int].sets,
                s <= sets@.len(),
                w@ == wanted@,
                forall|h: int, t: int, n: int|
                    #![trigger metric_matches(gs@, h, t, n, wanted@)]
                    h < g || (h == g && t < s) ==> !metric_matches(gs@, h, t, n, wanted@),
            decreases sets@.len() - s,
        {
            let names = &sets[s];
            let mut m: usize = 0;
            while m < names.len()
                invariant
                    g < gs@.len(),
                    groups == Some(gs),
                    *sets == gs@[g as int].sets,
                    s < sets@.len(),
                    *names == sets@[s as int],
                    m <= names@.len(),
                    w@ == wanted@,
                    forall|h: int, t: int, n: int|
                        #![trigger metric_matches(gs@, h, t, n, wanted@)]
                        h < g || (h == g && t < s) || (h == g && t == s && n < m)
                            ==> !metric_matches(gs@, h, t, n, wanted@),
                decreases names@.len() - m,
            {
                if name_contains(&names[m], &w) {
                    return Ok((g, s, m));
                }
                m = m + 1;
            }
            s = s + 1;
        }
        g = g + 1;
    }
    let mut msg: Vec<char> = Vec::new();
    push_str_chars(&mut msg, "Metric '");
    push_str_chars(&mut msg, wanted);
    push_str_chars(&mut msg, "' not found");
    Err(GpuError::FeatureNotEnabled(string_from_chars(msg.as_slice())))
}

/// The type tag of a calculated value that holds a number: unsigned 32-bit
/// (0), unsigned 64-bit (1) or float (2).
pub open spec fn numeric_value_type(t: u32) -> bool {
    t == 0 || t == 1 || t == 2
}

/// The name `n` contains one of `keys`.
pub open spec fn name_has_key(n: Seq<char>, keys: Seq<String>) -> bool {
    exists|k: int| 0 <= k < keys.len() && has_infix(n, #[trigger] keys[k]@)
}

/// Metric `i` of a set is a reading: its name contains one of `keys` and
/// its calculated value holds a number.
pub open spec fn is_reading(
    names: Seq<Option<String>>,
    value_types: Seq<u32>,
    keys: Seq<String>,
    i: int,
) -> bool {
    &&& 0 <= i < names.len()
    &&& i < value_types.len()
    &&& names[i] matches Some(n) && name_has_key(n@, keys)
    &&& numeric_value_type(value_types[i])
}

/// Whether the name `n`, if any, contains one of `keys`.
fn has_any_key(name: &Option<String>, keys: &Vec<String>) -> (r: bool)
    ensures
        r == (*name matches Some(n) && name_has_key(n@, keys@)),
{
    let n = match name {
        Some(n) => n,
        None => {
            return false;
        },
    };
    let cs = chars_of(n.as_str());
    let mut k: usize = 0;
    while k < keys.len()
        invariant
            k <= keys@.len(),
            *name == Some(*n),
            cs@ == n@,
            forall|j: int| 0 <= j < k ==> !has_infix(n@, #[trigger] keys@[j]@),
        decreases keys@.len() - k,
    {
        let kc = chars_of(keys[k].as_str());
        if contains(cs.as_slice(), kc.as_slice()) {
            assert(has_infix(n@, keys@[k as int]@));
            return true;
        }
        k = k + 1;
    }
    false
}

/// The metric of a set whose calculated value is the reading wanted: the
/// first one, in order, whose name contains one of `keys` and whose value
/// (of type `value_types[i]`) holds a number; `None` when there is none.
pub fn pick_calculated_metric(
    names: &Vec<Option<String>>,
    value_types: &Vec<u32>,
    keys: &Vec<String>,
) -> (r: Option<usize>)
    ensures
        match r {
            Some(i) => is_reading(names@, value_types@, keys@, i as int) && forall|j: int|
                0 <= j < i ==> !#[trigger] is_reading(names@, value_types@, keys@, j),
            None => forall|j: int| !#[trigger] is_reading(names@, value_types@, keys@, j),
        },
{
    let mut i: usize = 0;
    while i < names.len()
        invariant
            i <= names@.len(),
            forall|j: int| 0 <= j < i ==> !#[trigger] is_reading(names@, value_types@, keys@, j),
        decreases names@.len() - i,
    {
        if i < value_types.len() {
            let t = value_types[i];
            if (t == 0 || t == 1 || t == 2) && has_any_key(&names[i], keys) {
                return Some(i);
            }
        }
        i = i + 1;
    }
    None
}

/// The reading an MD metric gives.
#[derive(Debug, Clone, Copy, PartialEq, Eq, Structural)]
pub enum MdKind {
    /// The GPU temperature.
    Temperature,
    /// The GPU power usage.
    Power,
}

/// The word for a reading in error messages.
pub open spec fn kind_word(k: MdKind) -> Seq<char> {
    match k {
        MdKind::Temperature => "temperature"@,
        MdKind::Power => "power"@,
    }
}

/// The name searched for among the metrics, which also starts the message
/// of a reading not found among the calculated values.
pub open spec fn kind_metric(k: MdKind) -> Seq<char> {
    match k {
        MdKind::Temperature => "Temperature"@,
        MdKind::Power => "Power"@,
    }
}

/// The names by which a calculated value is recognised as the reading:
/// "Temperature" or "Temp" for the temperature, "Power" for power.
pub open spec fn kind_keys(k: MdKind) -> Seq<Seq<char>> {
    match k {
        MdKind::Temperature => seq!["Temperature"@, "Temp"@],
        MdKind::Power => seq!["Power"@],
    }
}

/// The name searched for among the metrics for a reading.
pub fn metric_name(kind: MdKind) -> (r: &'static str)
    ensures
        r@ == kind_metric(kind),
{
    match kind {
        MdKind::Temperature => "Temperature",
        MdKind::Power => "Power",
    }
}

/// The names by which a calculated value is recognised as the reading.
pub fn reading_keys(kind: MdKind) -> (r: Vec<String>)
    ensures
        r@.map_values(|k: String| k@) == kind_keys(kind),
{
    let mut r: Vec<String> = Vec::new();
    match kind {
        MdKind::Temperature => {
            r.push(String::from_str("Temperature"));
            r.push(String::from_str("Temp"));
        },
        MdKind::Power => {
            r.push(String::from_str("Power"));
        },
    }
    assert(r@.map_values(|k: String| k@) =~= kind_keys(kind));
    r
}

/// What reading a metric through an MD I/O stream waits for next.
#[derive(Debug, Clone, Copy, PartialEq, Eq, Structural)]
pub enum MdStage {
    /// The metric to be found among the groups and sets.
    AwaitFind,
    /// The metric set to be activated.
    AwaitActivate,
    /// The I/O stream to be opened.
    AwaitOpen,
    /// The stream to be read (then closed and the set deactivated).
    AwaitRead,
    /// The metric values to be calculated from the reports.
    AwaitCalculate,
    /// The reading to be picked among the calculated values.
    AwaitPick,
    /// Nothing more to do.
    Finished,
}

/// The state of reading one metric.
#[derive(Debug, Clone, Copy, PartialEq, Eq, Structural)]
pub struct MdState {
    /// The reading sought.
    pub kind: MdKind,
    /// What the reading waits for.
    pub stage: MdStage,
}

/// How the last action went.
pub enum MdEvent {
    /// The metric was searched for (`find_metric_index` with the kind's
    /// metric name); `interfaces_present` tells whether its set and group
    /// interfaces could be used.
    Found {
        /// The indices of the metric found, or the search's error.
        outcome: Result<(usize, usize, usize), GpuError>,
        /// Whether the set and group interfaces are present.
        interfaces_present: bool,
    },
    /// The metric set was activated with this status.
    Activated(i32),
    /// The I/O stream was opened with this status.
    StreamOpened(i32),
    /// The stream was read with this status and gave this many reports.
    StreamRead {
        /// The status of the read.
        code: i32,
        /// The number of reports read.
        reports: u32,
    },
    /// The values were calculated.
    Calculated {
        /// Whether the set offers calculation (its 1.1 interface).
        extension_present: bool,
        /// Whether the set's parameters could be read.
        params_present: bool,
        /// The status of the calculation.
        code: i32,
    },
    /// The reading was picked (`pick_calculated_metric` with the kind's
    /// keys).
    Picked(Option<usize>),
}

/// What to do next.
pub enum MdAction {
    /// Search for the metric named `metric_name(kind)`.
    FindMetric,
    /// Activate the metric set.
    Activate,
    /// Open an I/O stream on the set.
    OpenStream,
    /// Wait for data, read the stream, close it and deactivate the set.
    ReadStream,
    /// Calculate the metric values from the reports.
    Calculate,
    /// Pick the reading among the calculated values.
    PickValue,
    /// Deactivate the metric set and give up with the error.
    DeactivateAndFail(GpuError),
    /// Give up with the error.
    Fail(GpuError),
    /// The reading is the calculated value of metric `i` of the set.
    Done(usize),
}

/// The stage at which `event` is the outcome awaited.
pub open spec fn event_fits(stage: MdStage, event: MdEvent) -> bool {
    match event {
        MdEvent::Found { .. } => stage == MdStage::AwaitFind,
        MdEvent::Activated(_) => stage == MdStage::AwaitActivate,
        MdEvent::StreamOpened(_) => stage == MdStage::AwaitOpen,
        MdEvent::StreamRead { .. } => stage == MdStage::AwaitRead,
        MdEvent::Calculated { .. } => stage == MdStage::AwaitCalculate,
        MdEvent::Picked(_) => stage == MdStage::AwaitPick,
    }
}

/// `a` gives up with `FeatureNotEnabled` and message `msg`.
pub open spec fn fails_with(a: MdAction, msg: Seq<char>) -> bool {
    a matches MdAction::Fail(GpuError::FeatureNotEnabled(m)) && m@ == msg
}

/// `a` deactivates the set and gives up with `FeatureNotEnabled` and
/// message `msg`.
pub open spec fn deactivates_failing(a: MdAction, msg: Seq<char>) -> bool {
    a matches MdAction::DeactivateAndFail(GpuError::FeatureNotEnabled(m)) && m@ == msg
}

/// The step from `state` on `event` goes to `next` with `action`:
/// a failed search, or missing interfaces, ends it; a failed activation or
/// stream opening deactivates the set and ends it; a failed or empty read,
/// a missing calculation interface or parameters, a failed calculation, or
/// no reading among the values ends it; otherwise it goes on to the next
/// action, and a picked value ends it with that value.
pub open spec fn md_step_spec(state: MdState, event: MdEvent, next: MdState, action: MdAction) -> bool {
    let k = state.kind;
    &&& next.kind == k
    &&& match event {
        MdEvent::Found { outcome, interfaces_present } => match outcome {
            Err(e) => next.stage == MdStage::Finished && action == MdAction::Fail(e),
            Ok(_) => if !interfaces_present {
                next.stage == MdStage::Finished && action == MdAction::Fail(GpuError::GpuNotFound)
            } else {
                next.stage == MdStage::AwaitActivate && action == MdAction::Activate
            },
        },
        MdEvent::Activated(code) => if code != CC_OK {
            next.stage == MdStage::Finished && deactivates_failing(
                action,
                "Failed to activate "@ + kind_word(k) + " metric set"@,
            )
        } else {
            next.stage == MdStage::AwaitOpen && action == MdAction::OpenStream
        },
        MdEvent::StreamOpened(code) => if code != CC_OK {
            next.stage == MdStage::Finished && deactivates_failing(
                action,
                "Failed to open IoStream for "@ + kind_word(k),
            )
        } else {
            next.stage == MdStage::AwaitRead && action == MdAction::ReadStream
        },
        MdEvent::StreamRead { code, reports } => if code != CC_OK {
            next.stage == MdStage::Finished && fails_with(
                action,
                "Failed to read "@ + kind_word(k) + " data"@,
            )
        } else if reports == 0 {
            next.stage == MdStage::Finished && fails_with(
                action,
                "No "@ + kind_word(k) + " data available"@,
            )
        } else {
            next.stage == MdStage::AwaitCalculate && action == MdAction::Calculate
        },
        MdEvent::Calculated { extension_present, params_present, code } => if !extension_present {
            next.stage == MdStage::Finished && fails_with(action, "CalculateMetrics not available"@)
        } else if !params_present {
            next.stage == MdStage::Finished && action == MdAction::Fail(GpuError::GpuNotFound)
        } else if code != CC_OK {
            next.stage == MdStage::Finished && fails_with(
                action,
                "Failed to calculate "@ + kind_word(k) + " metrics"@,
            )
        } else {
            next.stage == MdStage::AwaitPick && action == MdAction::PickValue
        },
        MdEvent::Picked(p) => next.stage == MdStage::Finished && match p {
            Some(i) => action == MdAction::Done(i),
            None => fails_with(action, kind_metric(k) + " metric not found in results"@),
        },
    }
}

/// The message made of `a`, the word for `kind` and `b`.
fn kind_message(a: &str, kind: MdKind, b: &str) -> (r: String)
    ensures
        r@ == a@ + kind_word(kind) + b@,
{
    let mut m: Vec<char> = Vec::new();
    push_str_chars(&mut m, a);
    match kind {
        MdKind::Temperature => push_str_chars(&mut m, "temperature"),
        MdKind::Power => push_str_chars(&mut m, "power"),
    }
    push_str_chars(&mut m, b);
    string_from_chars(m.as_slice())
}

/// Reading a metric of kind `kind` starts by searching for it.
pub fn md_start(kind: MdKind) -> (r: (MdState, MdAction))
    ensures
        r.0 == (MdState { kind, stage: MdStage::AwaitFind }),
        r.1 == MdAction::FindMetric,
{
    (MdState { kind, stage: MdStage::AwaitFind }, MdAction::FindMetric)
}

/// The next state and action of reading a metric, from how the last action
/// went.
pub fn md_step(state: MdState, event: MdEvent) -> (r: (MdState, MdAction))
    requires
        event_fits(state.stage, event),
    ensures
        md_step_spec(state, event, r.0, r.1),
{
    let k = state.kind;
    let done = MdState { kind: k, stage: MdStage::Finished };
    match event {
        MdEvent::Found { outcome, interfaces_present } => match outcome {
            Err(e) => (done, MdAction::Fail(e)),
            Ok(_) => if !interfaces_present {
                (done, MdAction::Fail(GpuError::GpuNotFound))
            } else {
                (MdState { kind: k, stage: MdStage::AwaitActivate }, MdAction::Activate)
            },
        },
        MdEvent::Activated(code) => if code != CC_OK {
            let m = kind_message("Failed to activate ", k, " metric set");
            (done, MdAction::DeactivateAndFail(GpuError::FeatureNotEnabled(m)))
        } else {
            (MdState { kind: k, stage: MdStage::AwaitOpen }, MdAction::OpenStream)
        },
        MdEvent::StreamOpened(code) => if code != CC_OK {
            let m = kind_message("Failed to open IoStream for ", k, "");
            proof {
                reveal_strlit("");
                assert(""@ =~= Seq::<char>::empty());
                assert(m@ =~= "Failed to open IoStream for "@ + kind_word(k));
            }
            (done, MdAction::DeactivateAndFail(GpuError::FeatureNotEnabled(m)))
        } else {
            (MdState { kind: k, stage: MdStage::AwaitRead }, MdAction::ReadStream)
        },
        MdEvent::StreamRead { code, reports } => if code != CC_OK {
            let m = kind_message("Failed to read ", k, " data");
            (done, MdAction::Fail(GpuError::FeatureNotEnabled(m)))
        } else if reports == 0 {
            let m = kind_message("No ", k, " data available");
            (done, MdAction::Fail(GpuError::FeatureNotEnabled(m)))
        } else {
            (MdState { kind: k, stage: MdStage::AwaitCalculate }, MdAction::Calculate)
        },
        MdEvent::Calculated { extension_present, params_present, code } => if !extension_present {
            (
                done,
                MdAction::Fail(
                    GpuError::FeatureNotEnabled(String::from_str("CalculateMetrics not available")),
                ),
            )
        } else if !params_present {
            (done, MdAction::Fail(GpuError::GpuNotFound))
        } else if code != CC_OK {
            let m = kind_message("Failed to calculate ", k, " metrics");
            (done, MdAction::Fail(GpuError::FeatureNotEnabled(m)))
        } else {
            (MdState { kind: k, stage: MdStage::AwaitPick }, MdAction::PickValue)
        },
        MdEvent::Picked(p) => match p {
            Some(i) => (done, MdAction::Done(i)),
            None => {
                let mut m: Vec<char> = Vec::new();
                push_str_chars(&mut m, metric_name(k));
                push_str_chars(&mut m, " metric not found in results");
                (done, MdAction::Fail(GpuError::FeatureNotEnabled(string_from_chars(m.as_slice()))))
            },
        },
    }
}

} // verus!
