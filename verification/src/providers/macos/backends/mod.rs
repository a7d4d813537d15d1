//! Backends of the macOS provider.
pub mod iokit;
pub mod metal;
pub mod powermetrics;
pub mod system_profiler;
