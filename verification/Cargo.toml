[package]
name = "argon-one-up-daemon"
version = "0.1.0"
edition = "2021"
publish = false

[dependencies]
env_logger = "0.11"
log = "0.4"
rppal = "0.22"
tokio = { version = "1", features = ["rt-multi-thread", "macros", "time"] }
zbus = { version = "4", default-features = false, features = ["tokio"] }
