[package]
name = "symmetry_math"
version = "0.1.0"
edition = "2021"
publish = false

[dependencies]
rust_decimal = "=1.43.0"
anyhow = "=1.0.104"
jupiter-amm-interface = "=0.4.7"
solana-sdk = "=2.0.25"
