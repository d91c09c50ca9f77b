[package]
name = "mim_tts"
version = "0.1.0"
edition = "2021"
publish = false

[dependencies]
anyhow = "1"
chrono = "0.4"
cpal = "0.16"
dirs = "6"
enigo = "0.5"
futures-util = "0.3"
reqwest = { version = "0.12", features = ["stream"] }
rusqlite = { version = "0.37", features = ["bundled"] }
serde = { version = "1", features = ["derive"] }
serde_json = "1"
tokio = { version = "1", features = ["fs", "io-util"] }
