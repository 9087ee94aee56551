[package]
name = "dac"
version = "0.1.0"
edition = "2021"
publish = false

[dependencies]
sha2 = "0.10"
solana-ed25519-program = "*"
solana-sdk-ids = "*"
solana-instruction = "*"
