[package]
name = "livox_rs"
version = "0.1.0"
edition = "2021"
publish = false

[dependencies]
crc = "3"
tokio = { version = "1", features = ["net", "sync", "time", "rt", "macros"] }
tokio-stream = "0.1"
async-stream = "0.3"
nalgebra = "0.32"
