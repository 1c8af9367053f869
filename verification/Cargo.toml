[package]
name = "playback_tunnel"
version = "0.1.0"
edition = "2021"
publish = false

[dependencies]
base64 = "*"
futures-util = "0.3"
rand = "0.8"
reqwest = { version = "*", default-features = false, features = ["json"] }
serde = { version = "1", features = ["derive"] }
serde_json = "1"
tokio = { version = "1", features = ["rt-multi-thread", "macros", "time", "sync"] }
tokio-tungstenite = "*"
tokio-util = "0.7"
urlencoding = "2"
