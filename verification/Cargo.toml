[package]
name = "ytmusic-service"
version = "0.1.0"
edition = "2021"
publish = false

[dependencies]
arc-swap = "1"
reqwest = { version = "0.12", default-features = false }
thiserror = "2"
tokio = { version = "1", features = ["macros", "rt-multi-thread", "net", "sync", "time"] }
tonic = "0.12"
tonic-health = "0.12"
tonic-reflection = "0.12"
tracing-subscriber = { version = "0.3", features = ["env-filter"] }
ytmusicapi = "*"

[dev-dependencies]
tempfile = "3"
