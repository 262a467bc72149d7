[package]
name = "uicore"
version = "0.1.0"
edition = "2021"
publish = false

[dependencies]
time = "0.1"
uuid = { version = "*", features = ["v4"] }
serde = { version = "*", features = ["derive"] }
serde_json = "*"
