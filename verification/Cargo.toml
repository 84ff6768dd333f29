[package]
name = "music_auth"
version = "0.1.0"
edition = "2021"
publish = false

[dependencies]
url = "2"
serde = { version = "1", features = ["derive"] }
thiserror = "2"
cfg-if = "1"
tokio = { version = "1", features = ["time"] }
tauri = { version = "2", default-features = false }
