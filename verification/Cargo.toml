[package]
name = "sign_gateway"
version = "0.1.0"
edition = "2021"
publish = false

[dependencies]
hex = "0.4"
sha3 = "0.10"
serde = { version = "1", features = ["derive"] }
near-sdk = "5"
