[package]
name = "ambassadors_dao"
version = "0.1.0"
edition = "2021"
publish = false

[dependencies]
near-sdk = { version = "=4.1.1", default-features = false, features = ["legacy", "unstable"] }
ran = "=2.0.1"
