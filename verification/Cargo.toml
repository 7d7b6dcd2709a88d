[package]
name = "sf_autopilot"
version = "0.1.0"
edition = "2021"
publish = false

[dependencies]
chrono = "0.4"
fastrand = "2"
serde = { version = "1", features = ["derive"] }
toml = "*"
tokio = { version = "1", features = ["rt", "time", "macros"] }
async-trait = "0.1"
