[package]
name = "feo_tracing"
version = "0.1.0"
edition = "2021"
publish = false

[dependencies]
tracing = "0.1"

[dev-dependencies]
postcard = { version = "1", features = ["alloc"] }
