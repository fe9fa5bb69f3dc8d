[package]
name = "semaphore_noir"
version = "0.1.0"
edition = "2021"
publish = false

[dependencies]
serde_json = "=1.0.154"
mopro-ffi = { version = "=0.3.7", features = ["uniffi"] }
