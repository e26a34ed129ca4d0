[package]
name = "mansa_musa"
version = "0.1.0"
edition = "2021"
publish = false

[dependencies]
solana-program = "=5.2.0"
anchor-lang = "=1.2.2"
anchor-spl = { version = "=1.2.2", default-features = false, features = ["token", "solana-v3"] }
