[package]
name = "adaptive_concurrency"
version = "0.1.0"
edition = "2021"
publish = false

[dependencies]
tokio = { version = "1", features = ["sync"] }
futures = "0.3"
pin-project = "1"
