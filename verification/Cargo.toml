[package]
name = "node_identity"
version = "0.1.0"
edition = "2021"
publish = false

[dependencies]
enr = { version = "=0.14.0", features = ["rust-secp256k1"] }
secp256k1 = "=0.33.1"
log = "=0.4.34"
parity-path = "=0.1.3"
