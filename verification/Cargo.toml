[package]
name = "quay-aggregator-jupiter"
version = "0.1.0"
edition = "2021"
publish = false

[dependencies]
anyhow = "1"
jupiter-amm-interface = "=0.6.0"
quay-sdk = "=0.0.5"
solana-program = "2.1"
solana-account = "2"
solana-account-decoder = "2"
solana-clock = "2"
solana-instruction = "2"
solana-pubkey = "2"
