[package]
name = "synkit"
version = "0.1.0"
edition = "2021"
publish = false

[dependencies]
tokio = { version = "1", features = ["sync", "rt"] }
futures-core = "0.3"
serde = { version = "1", features = ["derive"] }
