[package]
name = "study"
version = "0.1.0"
edition = "2021"
publish = false

[dependencies]
anyhow = "=1.0.104"
async-trait = "=0.1.92"
bardecoder = "=0.5.0"
base64 = "=0.21.7"
bb8 = "=0.8.6"
chrono = "=0.4.45"
clap = { version = "=4.6.7", features = ["derive"] }
form_urlencoded = "=1.2.2"
headless_chrome = { version = "=1.0.22", features = ["offline"] }
image = "=0.24.9"
qrcode-generator = "=4.1.9"
rand = "=0.8.8"
reqwest = { version = "=0.11.27", default-features = false, features = ["json", "multipart", "rustls-tls"] }
serde = { version = "=1.0.229", features = ["derive"] }
serde_json = "=1.0.154"
tokio = { version = "=1.54.1", features = ["full"] }
tokio-util = "=0.7.20"
toml = "=0.8.23"
tracing = "=0.1.44"
