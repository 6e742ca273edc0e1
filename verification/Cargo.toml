[package]
name = "hoi_bridge"
version = "0.1.0"
edition = "2021"
publish = false

[dependencies]
futures = "=0.3.34"
futures-channel = "=0.3.34"
futures-util = "=0.3.34"
lapin = { version = "=4.12.3", default-features = false, features = ["tokio"] }
queues = "=1.1.0"
serde = { version = "=1.0.229", features = ["derive"] }
serde_json = "=1.0.154"
tokio = { version = "=1.54.1", features = ["rt-multi-thread", "macros", "time", "sync", "net"] }
tokio-tungstenite = "=0.30.0"
url = "=2.5.8"
uuid = { version = "=1.29.0", features = ["v4"] }
