[package]
name = "pion"
version = "0.1.0"
edition = "2021"
publish = false

[dependencies]
dashmap = "*"
tracing = "*"
tracing-subscriber = { version = "*", features = ["env-filter"] }
