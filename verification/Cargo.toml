[package]
name = "xchain_sdk"
version = "0.1.0"
edition = "2021"
publish = false

[dependencies]
hex = "*"
serde_json = "*"
grpc = "*"
serde = "*"
serde_derive = "*"
