[package]
name = "libfabric"
version = "0.1.0"
edition = "2021"
publish = false

[dependencies]
libfabric-sys = "*"
parking_lot = "0.12"
tokio = { version = "1", features = ["net", "rt"] }
async-io = "2"
