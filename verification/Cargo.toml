[package]
name = "token_factory"
version = "0.1.0"
edition = "2021"
publish = false

[dependencies]
near-sdk = "3.1.0"
near-contract-standards = "3.1.0"
