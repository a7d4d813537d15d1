//! GPU information: vendor identification, metric values, sysfs and
//! system-profiler text parsing, and backend selection, with their
//! behaviour stated as contracts and proved.
#![allow(unused_imports)]

pub mod text;
pub mod vendor;
pub mod metric_value;
pub mod time;
pub mod providers;
pub mod gpu_info;
pub mod gpu_manager;
pub mod ffi_utils;
pub mod cache_utils;
pub mod monitoring;
pub mod extended_info;
pub mod adl_api;
pub mod nvml_api;
pub mod linux;
pub mod provider_manager;
pub mod macos;
