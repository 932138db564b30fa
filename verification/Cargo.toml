[package]
name = "state_bridge"
version = "0.1.0"
edition = "2021"
publish = false

[dependencies]
crc32c = "=0.6.8"
regex = "=1.13.1"
arrow-array = { version = "=60.0.0", features = ["ffi"] }
arrow-data = { version = "=60.0.0", features = ["ffi"] }
arrow-schema = { version = "=60.0.0", features = ["ffi"] }
