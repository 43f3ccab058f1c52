[package]
name = "ttn_uplink"
version = "0.1.0"
edition = "2021"
publish = false

[dependencies]
base64 = "0.13"
rusqlite = "0.24"
serde = { version = "1", features = ["derive"] }
serde_json = "1"
