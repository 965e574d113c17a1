[package]
name = "health"
version = "0.1.0"
edition = "2021"
publish = false

[dependencies]
async-trait = "0.1"
parking_lot = "0.11"
tracing = "0.1"
tokio = { version = "0.3", features = ["time"] }
