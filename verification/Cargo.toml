[package]
name = "reliability_toolkit"
version = "0.1.0"
edition = "2021"
publish = false

[dependencies]
tokio = { version = "1", features = ["sync", "time"] }
thiserror = "1"
serde_json = "1"
reqwest = { version = "0.12", default-features = false, features = ["json"] }
