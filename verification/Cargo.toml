[package]
name = "scheduler"
version = "0.1.0"
edition = "2021"
publish = false

[dependencies]
chrono = "*"
tokio = { version = "=1.53.2", features = ["rt", "rt-multi-thread", "sync", "time", "macros"] }
serde = { version = "=1.0.229", features = ["derive"] }
