//! macOS GPU provider: configuration, backend routing, metrics and backends.
pub mod backends;
pub mod builder;
pub mod cache;
pub mod config;
pub mod metrics;
pub mod provider;
pub mod router;
