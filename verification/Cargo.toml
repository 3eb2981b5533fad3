[package]
name = "opaque_pake"
version = "0.1.0"
edition = "2021"
publish = false

[dependencies]
opaque-ke = { version = "=3.0.0", features = ["argon2", "ristretto255"] }
argon2 = "0.5"
base64 = "=0.21.7"
rand = "0.8"
