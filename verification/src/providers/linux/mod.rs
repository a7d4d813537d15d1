//! Linux GPU providers: AMD and Intel GPUs through sysfs and hwmon, NVIDIA
//! GPUs through NVML.
pub mod amd;
pub mod intel;
pub mod nvidia;
pub mod sysfs;
