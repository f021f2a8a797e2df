[package]
name = "claw_core"
version = "0.1.0"
edition = "2021"
publish = false

[dependencies]
auto-launch = "*"
dirs = "*"
serde = { version = "1", features = ["derive"] }
serde_json = "1"
tokio = { version = "1", features = ["full"] }
anyhow = "1"
tracing = "0.1"
tracing-subscriber = { version = "0.3", features = ["env-filter"] }
chrono = "0.4"
notify-rust = "4"
ksni = "0.3"
