[package]
name = "stake_token"
version = "0.1.0"
edition = "2021"
publish = false

[dependencies]
primitive-types = "*"
fraction = "*"
near-sdk = "3.1.0"
