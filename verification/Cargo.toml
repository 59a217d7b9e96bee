[package]
name = "wingscore"
version = "0.1.0"
edition = "2021"
publish = false

[dependencies]
env_logger = "0.9"
iced = { version = "0.4", features = ["pure"] }
