[package]
name = "aria_token"
version = "0.1.0"
edition = "2021"
publish = false

[dependencies]
borsh = "1"
bs58 = "0.5"
solana-program = "1.18"
spl-token = { version = "4", features = ["no-entrypoint"] }
thiserror = "1"
