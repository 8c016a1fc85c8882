[package]
name = "singbox_session"
version = "0.1.0"
edition = "2021"
publish = false

[dependencies]
base64 = "0.22"
chrono = "0.4"
reqwest = { version = "0.12", default-features = false, features = ["rustls-tls"] }
serde = { version = "1", features = ["derive"] }
serde_json = "1"
sysproxy = "0.3"
url = "2"
urlencoding = "2"
uuid = { version = "1", features = ["v4"] }
