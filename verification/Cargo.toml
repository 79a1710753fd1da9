[package]
name = "smtp_test_server"
version = "0.1.0"
edition = "2021"
publish = false

[dependencies]
base64ct = { version = "=1.8.3", features = ["alloc"] }
mailparse = "=0.18.0"
tokio = { version = "=1.53.2", features = ["net", "io-util", "sync", "time", "rt", "macros"] }
tokio-stream = "=0.1.19"
async-stream = "=0.3.6"
