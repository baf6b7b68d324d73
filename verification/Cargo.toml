[package]
name = "pm_sim"
version = "0.1.0"
edition = "2021"
publish = false

[dependencies]
chrono = "0.4"
rand = "0.9"
serde = { version = "1", features = ["derive"] }
toml = "0.8"
csv = "1"
anyhow = "1"
tracing = "0.1"
