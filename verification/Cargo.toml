[package]
name = "smartness"
version = "0.1.0"
edition = "2021"
publish = false

[dependencies]
chrono = "0.4"
clap = { version = "4", features = ["derive"] }
csv = "1"
scylla = { version = "1", features = ["metrics"] }
serde = { version = "1", features = ["derive"] }
serde_json = "1"
statrs = "0.18"
thiserror = "2"
tokio = { version = "1", features = ["full"] }
tokio-util = { version = "0.7", features = ["rt"] }
uuid = { version = "1", features = ["v4"] }
