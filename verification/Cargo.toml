[package]
name = "parkrust"
version = "0.1.0"
edition = "2021"
publish = false

[dependencies]
chrono = "0.4"
clap = { version = "4", features = ["derive"] }
reqwest = { version = "0.11", default-features = false }
serde_json = "1"
tokio = { version = "1", features = ["rt-multi-thread", "macros"] }
