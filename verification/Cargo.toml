[package]
name = "epic_backend"
version = "0.1.0"
edition = "2021"
publish = false

[dependencies]
flate2 = "1"
zip = { version = "*", default-features = false, features = ["deflate"] }
