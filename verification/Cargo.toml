[package]
name = "fast_cli"
version = "0.1.0"
edition = "2021"
publish = false

[dependencies]
secp256k1 = "*"
sha2 = "*"
kaspa-addresses = "*"
kaspa-bip32 = "*"
clap = "*"
