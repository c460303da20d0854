[package]
name = "defight"
version = "0.1.0"
edition = "2021"
publish = false

[dependencies]
near-sdk = "3"
near-contract-standards = "3"
