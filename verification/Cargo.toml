[package]
name = "dm_assistant"
version = "0.1.0"
edition = "2021"
publish = false

[dependencies]
chrono = { version = "0.4", features = ["serde"] }
dirs = "*"
partial_derive = "*"
serde = { version = "1", features = ["derive"] }
serde_json = "1"
tauri = { version = "*", default-features = false }
uuid = { version = "1", features = ["v4", "serde"] }
