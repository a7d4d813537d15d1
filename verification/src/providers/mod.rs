//! Vendor- and platform-specific GPU providers.
pub mod amd;
pub mod intel;
pub mod linux;
pub mod macos;
pub mod nvidia;
pub mod windows;
