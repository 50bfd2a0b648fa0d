[package]
name = "lottery_engine"
version = "0.1.0"
edition = "2021"
publish = false

[dependencies]
rand = "0.7"
near-sdk = { version = "4.1", default-features = false }
near-contract-standards = "4.1"
