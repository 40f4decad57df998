[package]
name = "sfio_tracing_ffi"
version = "0.1.0"
edition = "2021"
publish = false

[dependencies]
tracing = "0.1"
tracing-core = "0.1"
tracing-subscriber = { version = "0.3", features = ["json", "chrono"] }
oo-bindgen = "*"
lazy_static = "1"
