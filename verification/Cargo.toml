[package]
name = "drive_sdk"
version = "0.1.0"
edition = "2021"
publish = false

[dependencies]
base64 = "=0.22.1"
chrono = { version = "=0.4.45", default-features = false, features = ["std"] }
rand = "=0.9.5"
zeroize = { version = "1", default-features = false }
