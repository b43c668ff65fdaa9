[package]
name = "victron_controller_core"
version = "0.1.0"
edition = "2021"
publish = false

[dependencies]
arc-swap = "1"
chrono = "0.4"
chrono-tz = "0.10"
serde = { version = "1", features = ["derive"] }
serde_json = "1"
