[package]
name = "thatcord"
version = "0.1.0"
edition = "2021"
publish = false

[dependencies]
serde = { version = "*", features = ["derive"] }
serde_json = "*"
tokio = { version = "*", features = ["rt", "macros", "sync", "time", "net", "io-util"] }
futures-util = "*"
websocket-lite = "*"
log = "*"
