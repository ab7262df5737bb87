[package]
name = "radioss_presence"
version = "0.1.0"
edition = "2021"
publish = false

[dependencies]
discord-rich-presence = "=0.2.5"
serde_json = "1"
tokio = { version = "1", features = ["sync", "time"] }
