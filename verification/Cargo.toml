[package]
name = "wc_utils"
version = "0.1.0"
edition = "2021"
publish = false

[dependencies]
regex = "=1.13.1"
serde = { version = "=1.0.229", features = ["derive"] }
serde_json = "=1.0.154"
tokio = { version = "=1.54.1", features = ["sync", "time", "rt", "macros", "net"] }
tokio-util = "=0.7.20"
tokio-stream = "=0.1.19"
futures-util = { version = "=0.3.34", features = ["sink"] }
futures-timer = "=3.0.4"
tokio-tungstenite = "*"
