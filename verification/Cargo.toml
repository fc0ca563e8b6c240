[package]
name = "hcli"
version = "0.1.0"
edition = "2021"
publish = false

[dependencies]
unicode-width = "0.2"
ratatui = "0.29"
chrono = "0.4"
dirs = "5"
anyhow = "1"
toml = "0.8"
tokio = { version = "1", features = ["rt", "time"] }
