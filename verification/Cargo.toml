[package]
name = "shm"
version = "0.1.0"
edition = "2021"
publish = false

[dependencies]
sentry-uapi = { version = "=0.4.8", features = ["std"] }
