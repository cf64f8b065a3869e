[package]
name = "clap_adapters"
version = "0.1.0"
edition = "2021"
publish = false

[dependencies]
anyhow = "1"
clap = { version = "4", features = ["derive"] }
notify = "*"
reqwest = { version = "*", default-features = false, features = ["blocking"] }
serde = "1"
serde_json = "1"
serde_yaml = "0.9"
tokio = { version = "1", features = ["rt-multi-thread", "sync", "time", "macros"] }
tokio-stream = { version = "0.1", features = ["sync"] }
toml = "*"
tracing = "0.1"
url = "2"
