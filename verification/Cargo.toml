[package]
name = "rusttgcalls"
version = "0.1.0"
edition = "2021"
publish = false

[dependencies]
bytes = "1"
papaya = "*"
parking_lot = "0.12"
rand = "0.9"
rcgen = "*"
rtc = "*"
serde = { version = "1", features = ["derive"] }
serde_json = "1"
simd-json = "*"
thiserror = "2"
tokio = { version = "1", features = ["full"] }
tracing = "0.1"
