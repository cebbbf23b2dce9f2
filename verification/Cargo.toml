[package]
name = "know"
version = "0.1.0"
edition = "2021"
publish = false

[dependencies]
base64 = "*"
jiff = "*"
serde = { version = "*", features = ["derive"] }
serde_json = "*"
