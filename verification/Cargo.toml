[package]
name = "lagide"
version = "0.1.0"
edition = "2021"
publish = false

[dependencies]
anyhow = "=1.0.104"
chrono = { version = "=0.4.45", features = ["serde"] }
crossterm = "=0.28.1"
portable-pty = "=0.8.1"
ratatui = "=0.29.0"
serde = { version = "=1.0.229", features = ["derive"] }
serde_json = "=1.0.154"
ssh2 = "=0.9.6"
sysinfo = "=0.33.1"
thiserror = "=1.0.69"
vt100 = "=0.15.2"
