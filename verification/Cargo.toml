[package]
name = "snipsnap"
version = "0.1.0"
edition = "2021"
publish = false

[dependencies]
base64 = "0.13"
rand = "0.8"
serde_json = "1"
sha2 = "0.10"
tiny_http = "0.12"
ureq = { version = "1", default-features = false }
url = "2"
webbrowser = "0.8"
