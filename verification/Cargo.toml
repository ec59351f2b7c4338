[package]
name = "token_bridge"
version = "0.1.0"
edition = "2021"
publish = false

[dependencies]
bigint = "4.4"
casper-types = "*"
hex = "0.4"
rand = "0.8"
secp256k1 = { version = "0.20", features = ["recovery"] }
tiny-keccak = { version = "2.0", features = ["keccak"] }
