[package]
name = "wallet_core"
version = "0.1.0"
edition = "2021"
publish = false

[dependencies]
ethabi = "=18.0.0"
k256 = "=0.13.4"
sha3 = "=0.10.9"
serde = "1"
arbitrary = { version = "1", features = ["derive"] }
