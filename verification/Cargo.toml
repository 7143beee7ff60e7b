[package]
name = "circuit_core"
version = "0.1.0"
edition = "2021"
publish = false

[dependencies]
smallbitvec = "*"
serde = "*"
serde_derive = "*"
serde_json = "*"
