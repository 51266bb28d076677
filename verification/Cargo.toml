[package]
name = "stream-reconnect"
version = "0.1.0"
edition = "2021"
publish = false

[dependencies]
futures = "=0.3.34"
log = "=0.4.35"
rand = "=0.8.8"
tokio = { version = "=1.54.1", features = ["rt", "time"] }
