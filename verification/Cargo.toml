[package]
name = "request_relay"
version = "0.1.0"
edition = "2021"
publish = false

[dependencies]
serde_json = "1"
url = "2"
tauri = { version = "2", default-features = false, features = ["devtools"] }
