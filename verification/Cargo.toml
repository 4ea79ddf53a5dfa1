[package]
name = "chat_coordinator"
version = "0.1.0"
edition = "2021"
publish = false

[dependencies]
async-stream = "0.3"
tokio = { version = "1", default-features = false, features = ["sync"] }
tokio-stream = { version = "0.1", default-features = false }
