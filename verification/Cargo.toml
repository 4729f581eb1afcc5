[package]
name = "tapyrus_signer"
version = "0.1.0"
edition = "2021"
publish = false

[dependencies]
bitcoin = "0.20"
log = "0.4"
redis = { version = "0.21", default-features = false }
secp256k1 = "0.15"
