[package]
name = "rbackup"
version = "0.1.0"
edition = "2021"
publish = false

[dependencies]
sha2 = "*"
hex = "*"
rust-crypto = "*"
uuid = { version = "*", features = ["v4"] }
cache_2q = "*"
