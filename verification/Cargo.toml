[package]
name = "ciphersuite"
version = "0.1.0"
edition = "2021"
publish = false

[dependencies]
ring = "*"
x25519-dalek = { version = "2", features = ["static_secrets"] }
p256 = "*"
