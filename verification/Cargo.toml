[package]
name = "packet_host"
version = "0.1.0"
edition = "2021"
publish = false

[dependencies]
semver = "1"
cosmwasm-std = { version = "1", features = ["stargate"] }
serde = { version = "1", features = ["derive"] }
schemars = "0.8"
