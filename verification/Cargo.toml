[package]
name = "herdr_client"
version = "0.1.0"
edition = "2021"
publish = false

[dependencies]
interprocess = "2"
tokio = { version = "1", features = ["rt", "sync"] }
tracing = "0.1"
