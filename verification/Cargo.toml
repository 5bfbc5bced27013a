[package]
name = "dirwatch"
version = "0.1.0"
edition = "2021"
publish = false

[dependencies]
serde_json = "*"
notify = "*"
napi = { version = "*", features = ["napi4"] }
napi-derive = "*"
tokio = { version = "*", features = ["sync"] }
