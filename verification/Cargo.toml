[package]
name = "campusflow"
version = "0.1.0"
edition = "2021"
publish = false

[dependencies]
serde = { version = "1", features = ["derive"] }
serde_json = "1"
encoding_rs = "0.8"
base64 = "0.22"
ureq = { version = "2", default-features = false }
tauri = { version = "2", default-features = false }
