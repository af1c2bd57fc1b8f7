[package]
name = "katana-tasks"
version = "0.1.0"
edition = "2021"
publish = false

[dependencies]
futures = "0.3"
metrics = "*"
parking_lot = "0.12"
thiserror = "1"
tokio = { version = "1", features = ["macros", "rt", "rt-multi-thread", "sync", "time"] }
tokio-metrics = { version = "0.3", default-features = false }
tokio-util = { version = "0.7", features = ["rt"] }
tracing = "0.1"
