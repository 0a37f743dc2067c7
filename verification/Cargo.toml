[package]
name = "tensor_guardian"
version = "0.1.0"
edition = "2021"
publish = false

[dependencies]
uuid = { version = "=1.29.0", features = ["v4"] }
chrono = "=0.4.45"
serde = { version = "=1.0.229", features = ["derive"] }
serde_json = "=1.0.154"
toml = "=0.8.23"
thiserror = "=1.0.69"
anyhow = "=1.0.104"
async-trait = "=0.1.92"
tokio = { version = "=1.54.1", features = ["rt-multi-thread", "macros", "fs", "sync", "time", "net"] }
tracing = "=0.1.44"
tracing-subscriber = { version = "=0.3.23", features = ["env-filter"] }
clap = { version = "=4.6.7", features = ["derive", "env"] }
ratatui = "=0.29.0"
crossterm = "=0.28.1"
libc = "=0.2.191"
libloading = "=0.8.9"
mach2 = "=0.4.3"
nvml-wrapper = "=0.10.0"
axum = "=0.7.9"
aya = "=0.13.1"
aya-log = "=0.2.1"
tonic = "0.12"
