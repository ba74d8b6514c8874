[package]
name = "cryptocurrency"
version = "0.1.0"
edition = "2021"
publish = false

[dependencies]
chrono = "0.4"
exonum = "0.9"
failure = "0.1"
