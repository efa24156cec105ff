[package]
name = "andromeda_contracts"
version = "0.1.0"
edition = "2021"
publish = false

[dependencies]
cosmwasm-std = "1.0"
cw-utils = "0.13"
cw2 = "0.13"
cw721 = "0.13"
semver = "1"
serde = { version = "1", features = ["derive"] }
