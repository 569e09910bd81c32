[package]
name = "canonical_timeline"
version = "0.1.0"
edition = "2021"
publish = false

[dependencies]
tokio = { version = "*", features = ["sync"] }
ruma = { version = "*", features = ["events"] }
