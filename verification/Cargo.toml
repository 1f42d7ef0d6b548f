[package]
name = "hyprwhisper"
version = "0.1.0"
edition = "2021"
publish = false

[dependencies]
cpal = "0.15"
whisper-rs = "0.14"
dirs = "5"
once_cell = "1"
serde = { version = "1", features = ["derive"] }
serde_json = "1"
tokio = { version = "1", features = ["fs", "io-util"] }
reqwest = { version = "0.12", default-features = false, features = ["stream", "rustls-tls"] }
futures-util = "0.3"
