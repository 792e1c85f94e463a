[package]
name = "vehicle_store"
version = "0.1.0"
edition = "2021"
publish = false

[dependencies]
uuid = { version = "1", features = ["v4"] }
scylla = "*"
chrono = "0.4"
tokio = { version = "1", features = ["rt-multi-thread", "macros"] }
tokio-retry = "0.3"
