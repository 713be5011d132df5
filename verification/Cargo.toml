[package]
name = "codegraph"
version = "0.1.0"
edition = "2021"
publish = false

[dependencies]
anyhow = "1"
atty = "0.2"
axum = "0.8"
bytecheck = "0.8"
chrono = "=0.4.45"
clap = { version = "4", features = ["derive", "env"] }
colored = "2"
dashmap = "=6.2.1"
dirs = "5"
dotenv = "0.15"
indicatif = "0.17"
libc = "0.2"
memmap2 = "=0.9.12"
nix = { version = "0.29", features = ["signal", "process"] }
parking_lot = "0.12"
rayon = "=1.12.0"
rkyv = "0.8"
rmcp = { version = "0.11", features = ["server", "transport-io", "transport-streamable-http-server"] }
serde_json = "1"
serde_yaml = "0.9"
tokio = { version = "1", features = ["full"] }
tokio-util = "0.7"
tracing = "0.1"
tracing-appender = "0.2"
tracing-subscriber = { version = "0.3", features = ["env-filter"] }
windows-sys = { version = "0.59", features = ["Win32_Foundation", "Win32_System_Memory", "Win32_System_Threading"] }
