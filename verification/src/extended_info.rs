//! Extended GPU information of integer and enumerated kind: throttling
//! reasons, performance states, clocks and overclocking limits.
use vstd::prelude::*;

verus! {

/// Why a GPU throttles.
#[derive(Debug, Clone, Copy, PartialEq, Eq, Structural)]
pub enum ThrottleReason {
    /// It does not throttle.
    NotThrottling,
    /// Temperature.
    Temperature,
    /// Power limit.
    PowerLimit,
    /// Voltage limit.
    VoltageLimit,
    /// Unknown reason.
    Unknown,
}

/// GPU performance states.
#[derive(Debug, Clone, Copy, PartialEq, Eq, Structural)]
pub enum PerformanceState {
    /// Maximum performance.
    Maximum,
    /// High performance.
    High,
    /// Medium performance.
    Medium,
    /// Power saver.
    PowerSaver,
    /// Adaptive.
    Adaptive,
    /// Unknown.
    Unknown,
}

/// Overclocking capabilities and settings.
#[derive(Debug, Clone, Copy, PartialEq, Eq, Structural)]
pub struct OverclockingInfo {
    /// Whether overclocking is supported.
    pub overclocking_supported: Option<bool>,
    /// Current core clock offset, MHz.
    pub core_clock_offset: Option<i32>,
    /// Current memory clock offset, MHz.
    pub memory_clock_offset: Option<i32>,
    /// Largest safe core clock offset, MHz.
    pub max_core_clock_offset: Option<i32>,
    /// Largest safe memory clock offset, MHz.
    pub max_memory_clock_offset: Option<i32>,
    /// Current voltage limit, mV.
    pub voltage_limit: Option<u32>,
    /// Largest voltage limit, mV.
    pub max_voltage_limit: Option<u32>,
}

impl Default for OverclockingInfo {
    /// Nothing known.
    fn default() -> (r: Self)
        ensures
            r.overclocking_supported is None,
            r.core_clock_offset is None,
            r.memory_clock_offset is None,
            r.max_core_clock_offset is None,
            r.max_memory_clock_offset is None,
            r.voltage_limit is None,
            r.max_voltage_limit is None,
    {
        OverclockingInfo {
            overclocking_supported: None,
            core_clock_offset: None,
            memory_clock_offset: None,
            max_core_clock_offset: None,
            max_memory_clock_offset: None,
            voltage_limit: None,
            max_voltage_limit: None,
        }
    }
}

/// Performance information.
#[derive(Debug, Clone, PartialEq)]
pub struct PerformanceInfo {
    /// Base core clock, MHz.
    pub base_core_clock: Option<u32>,
    /// Boost core clock, MHz.
    pub boost_core_clock: Option<u32>,
    /// Shader clock, MHz.
    pub shader_clock: Option<u32>,
    /// Base memory clock, MHz.
    pub base_memory_clock: Option<u32>,
    /// Boost memory clock, MHz.
    pub boost_memory_clock: Option<u32>,
    /// Current performance state.
    pub performance_state: Option<PerformanceState>,
    /// Available performance states.
    pub available_performance_states: Vec<PerformanceState>,
    /// Overclocking capabilities.
    pub overclocking_info: OverclockingInfo,
}

impl Default for PerformanceInfo {
    /// Nothing known.
    fn default() -> (r: Self)
        ensures
            r.base_core_clock is None,
            r.boost_core_clock is None,
            r.shader_clock is None,
            r.base_memory_clock is None,
            r.boost_memory_clock is None,
            r.performance_state is None,
            r.available_performance_states@.len() == 0,
            r.overclocking_info.overclocking_supported is None,
            r.overclocking_info.core_clock_offset is None,
            r.overclocking_info.memory_clock_offset is None,
            r.overclocking_info.max_core_clock_offset is None,
            r.overclocking_info.max_memory_clock_offset is None,
            r.overclocking_info.voltage_limit is None,
            r.overclocking_info.max_voltage_limit is None,
    {
        PerformanceInfo {
            base_core_clock: None,
            boost_core_clock: None,
            shader_clock: None,
            base_memory_clock: None,
            boost_memory_clock: None,
            performance_state: None,
            available_performance_states: Vec::new(),
            overclocking_info: OverclockingInfo::default(),
        }
    }
}

} // verus!
