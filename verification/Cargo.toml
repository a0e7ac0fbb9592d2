[package]
name = "block-verifier"
version = "0.1.0"
edition = "2021"
publish = false

[dependencies]
protobuf = "2"
lazy_static = "1"

[dev-dependencies]
hex = "0.4"
base64 = "0.13"
