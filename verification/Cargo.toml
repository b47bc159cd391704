[package]
name = "solprobe"
version = "0.1.0"
edition = "2021"
publish = false

[dependencies]
tui = "0.19"
crossterm = "0.25"
tokio = { version = "1", features = ["full"] }
clap = { version = "4", features = ["derive"] }
serde = { version = "1", features = ["derive"] }
toml = "0.5"
dirs = "4"
log = "0.4"
env_logger = "0.10"
chrono = "0.4"
