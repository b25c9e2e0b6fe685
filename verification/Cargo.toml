[package]
name = "oauth_callback_page"
version = "0.1.0"
edition = "2021"
publish = false

[dependencies]
anyhow = "1"
base64 = "0.22"
sha2 = "0.10"
tiny_http = "0.12"
tokio = { version = "1", features = ["rt", "rt-multi-thread", "sync", "time"] }
url = "2"
