[package]
name = "zero2prod"
version = "0.1.0"
edition = "2021"
publish = false

[dependencies]
validator = "0.16"
rand = "0.8"
uuid = { version = "1", features = ["v4"] }
chrono = "0.4"
