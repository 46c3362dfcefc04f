[package]
name = "broadcast"
version = "0.1.0"
edition = "2021"
publish = false

[dependencies]
crdts = "7"
serde_json = "1"
rand = "0.8"
tokio = { version = "1", features = ["macros", "rt-multi-thread", "sync", "time", "signal"] }
anyhow = "1"
tracing = "0.1"
tracing-subscriber = "0.3"
