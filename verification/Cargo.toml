[package]
name = "mycelink"
version = "0.1.0"
edition = "2021"
publish = false

[dependencies]
base64 = "0.22"
rand = "0.8"
mime = "0.3"
hex = "0.4"
tokio = { version = "1", features = ["io-util", "net", "sync", "rt", "macros"] }
serde = { version = "1", features = ["derive"] }
ciborium = "0.2"
log = "0.4"
