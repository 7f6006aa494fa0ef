[package]
name = "runtime"
version = "0.1.0"
edition = "2021"
publish = false

[dependencies]
tokio = { version = "1", features = ["rt", "rt-multi-thread", "sync", "time", "signal", "macros"] }
tracing = "0.1"
metrics = "0.22"
