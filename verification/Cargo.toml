[package]
name = "artifexprocal"
version = "0.1.0"
edition = "2021"
publish = false

[dependencies]
uuid = { version = "1", features = ["v4"] }
chrono = "0.4"
serde = { version = "1", features = ["derive"] }
serde_json = "1"
csv = "1"
rusb = "0.9"
parking_lot = "0.12"
thiserror = "2"
