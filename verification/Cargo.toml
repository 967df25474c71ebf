[package]
name = "zero-robot"
version = "0.1.0"
edition = "2021"
publish = false

[dependencies]
axum = "=0.7.9"
base64 = "=0.21.7"
chrono = "=0.4.45"
crossterm = "=0.27.0"
evdev = "=0.12.2"
futures = "=0.3.34"
reqwest = { version = "=0.12.28", default-features = false, features = ["rustls-tls", "charset", "http2"] }
rppal = "=0.19.0"
rscam = "=0.5.5"
serde_json = "=1.0.154"
tokio = { version = "=1.54.1", features = ["full"] }
tokio-stream = { version = "=0.1.19", features = ["sync"] }
warp = { version = "=0.3.7", default-features = false }
