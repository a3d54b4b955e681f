[package]
name = "cryptobox"
version = "0.1.0"
edition = "2021"
publish = false

[dependencies]
sodiumoxide = { version = "0.2", default-features = false, features = ["std"] }
