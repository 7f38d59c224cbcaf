[package]
name = "signal_client"
version = "0.1.0"
edition = "2021"
publish = false

[dependencies]
sled = "=0.34.7"
base64 = "=0.23.1"
rand = "=0.8.8"
qrcode = { version = "=0.14.1", default-features = false }
serde = { version = "=1.0.229", features = ["derive"] }
serde_json = "=1.0.151"
reqwest = { version = "=0.12.28", default-features = false, features = ["rustls-tls", "json"] }
tokio = { version = "=1.53.2", features = ["rt", "macros", "time", "sync"] }
clap = { version = "=4.6.7", features = ["derive"] }
dirs = "=7.0.0"
futures-util = "=0.3.34"
tokio-tungstenite = "=0.30.0"
