[package]
name = "cheddar"
version = "0.1.0"
edition = "2021"
publish = false

[dependencies]
near-sdk = { version = "=4.1.1", default-features = false }
chrono = { version = "=0.4.45", default-features = false, features = ["alloc"] }
near-sys = "=0.2.14"
