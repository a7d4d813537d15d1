//! Windows GPU providers.
pub mod intel;
pub mod intel_md;
pub mod pdh;
