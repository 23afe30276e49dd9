[package]
name = "network_math"
version = "0.1.0"
edition = "2021"
publish = false

[dependencies]
iron = "*"
reqwest = { version = "*", default-features = false, features = ["blocking"] }
lazy_static = "*"
log = "*"
env_logger = "*"
