[package]
name = "tempo"
version = "0.1.0"
edition = "2021"
publish = false

[dependencies]
once_cell = "1"
thiserror = "*"
tokio = { version = "1", features = ["rt", "rt-multi-thread", "sync", "time", "macros"] }
tokio-stream = "*"
tonic = "*"
