[package]
name = "gpu_info"
version = "0.1.0"
edition = "2021"
publish = false

[dependencies]
libloading = "0.8"
log = "0.4"
serde = { version = "1", features = ["derive"] }
serde_json = "1"
thiserror = "1"
tokio = { version = "1", features = ["rt", "rt-multi-thread", "macros"] }
