[package]
name = "microsandbox_tui"
version = "0.2.0"
edition = "2021"
publish = false

[dependencies]
anyhow = "1"
chrono = "0.4"
crossterm = { version = "0.28", features = ["event-stream"] }
dirs = "5"
futures = "0.3"
humantime = "2"
ratatui = "0.29"
serde = { version = "1", features = ["derive"] }
tokio = { version = "1", features = ["full"] }
toml = "0.8"
