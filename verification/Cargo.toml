[package]
name = "firmware_descriptor"
version = "0.1.0"
edition = "2021"
publish = false

[dependencies]
chrono = "*"
serde_json = "*"
reqwest = { version = "*", default-features = false, features = ["blocking"] }
