[package]
name = "reels_pipeline"
version = "0.1.0"
edition = "2021"
publish = false

[dependencies]
regex = "=1.13.1"
serde = { version = "=1.0.229", features = ["derive"] }
serde_json = "=1.0.154"
tokio = { version = "=1.54.1", features = ["process", "io-util", "rt-multi-thread", "macros"] }
reqwest = { version = "=0.11.27", features = ["json", "multipart"] }
