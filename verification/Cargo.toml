[package]
name = "codex_auth"
version = "0.1.0"
edition = "2021"
publish = false

[dependencies]
base64 = "0.22"
sha2 = "0.10"
rand = "0.8"
url = "2"
serde_json = "1"
chrono = "0.4"
serde = { version = "1", features = ["derive"] }
tiny_http = "0.12"
reqwest = { version = "0.12", default-features = false, features = ["blocking", "json"] }
webbrowser = "1"
dirs = "5"
