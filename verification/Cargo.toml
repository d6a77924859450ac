[package]
name = "safeguard"
version = "0.1.0"
edition = "2021"
publish = false

[dependencies]
futures-util = "0.3"
mimalloc = "*"
reqwest = { version = "0.12", features = ["json", "stream"] }
rusqlite = "*"
serde_json = "1"
tokio = { version = "1", features = ["full"] }
