[package]
name = "simple_oracle"
version = "0.1.0"
edition = "2021"
publish = false

[dependencies]
semver = "1"
cosmwasm-std = "1"
cosmwasm-schema = "1"
cw-storage-plus = "1"
cw2 = "1"
