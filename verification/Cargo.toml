[package]
name = "levm"
version = "0.1.0"
edition = "2021"
publish = false

[dependencies]
bytes = "1"
ethereum-types = { version = "*", default-features = false, features = ["std"] }
keccak-hash = "*"
libsecp256k1 = "*"
sha3 = "*"
