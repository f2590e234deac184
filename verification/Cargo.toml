[package]
name = "gputop"
version = "0.1.0"
edition = "2021"
publish = false

[dependencies]
anyhow = "1"
chrono = "0.4"
clap = { version = "4", features = ["derive"] }
crossterm = "0.27"
dirs = "5"
nvml-wrapper = "0.9"
ratatui = "0.24"
serde = { version = "1", features = ["derive"] }
serde_json = "1"
sysinfo = "0.29"
tokio = { version = "1", features = ["full"] }
unicode-width = "0.1"
