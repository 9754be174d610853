[package]
name = "message_channel"
version = "0.1.0"
edition = "2021"
publish = false

[dependencies]
chrono = "*"
tokio = { version = "*", features = ["sync"] }
futures-util = "*"
