[package]
name = "whatsmeow"
version = "0.1.0"
edition = "2021"
publish = false

[dependencies]
base64 = "*"
futures = "*"
libc = "*"
parking_lot = "*"
serde_json = "*"
thiserror = "*"
tokio = { version = "*", features = ["rt-multi-thread", "sync", "time", "macros"] }
tracing = "*"
tracing-subscriber = { version = "*", features = ["env-filter"] }
