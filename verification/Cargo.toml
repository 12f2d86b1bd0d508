[package]
name = "celery"
version = "0.1.0"
edition = "2021"
publish = false

[dependencies]
lapin = "*"
tokio = { version = "*", features = ["rt", "time", "macros"] }
serde_json = "*"
futures-util = "*"
