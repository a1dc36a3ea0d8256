[package]
name = "gateway_handshake"
version = "0.1.0"
edition = "2021"
publish = false

[dependencies]
url = "*"
tokio = { version = "*", features = ["macros", "rt-multi-thread"] }
tonic = "*"
prost = "*"
