[package]
name = "shengsuanyun"
version = "0.1.0"
edition = "2021"
publish = false

[dependencies]
chrono = "0.4"
http = "1"
reqwest = { version = "0.12", default-features = false, features = ["json", "rustls-tls"] }
serde = { version = "1", features = ["derive"] }
serde_json = "1"
tiny_http = "0.12"
tokio = { version = "1", features = ["macros", "rt", "rt-multi-thread", "sync", "time"] }
url = "2"
urlencoding = "2"
webbrowser = "1"
