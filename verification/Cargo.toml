[package]
name = "chat_core"
version = "0.1.0"
edition = "2021"
publish = false

[dependencies]
tokio = { version = "1", features = ["sync", "rt-multi-thread", "net", "macros", "io-util", "time"] }
dashmap = "6"
tokio-util = { version = "0.7", features = ["codec"] }
futures = "0.3"
anyhow = "1"
