[package]
name = "accounts_fanout"
version = "0.1.0"
edition = "2021"
publish = false

[dependencies]
bs58 = "=0.5.1"
crossbeam-channel = "=0.5.17"
log = "=0.4.34"
solana-measure = { version = "=3.1.14", features = ["agave-unstable-api"] }
