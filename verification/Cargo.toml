[package]
name = "static_server"
version = "0.1.0"
edition = "2021"
publish = false

[dependencies]
mime_guess = "2.0"
simdutf8 = "0.1"
async-std = { version = "1", features = ["attributes"] }
