[package]
name = "paladin_lockup"
version = "0.1.0"
edition = "2021"
publish = false

[dependencies]
solana-program = "=5.1.0"
spl-associated-token-account = { version = "=8.0.0", features = ["no-entrypoint"] }
spl-token-2022 = { version = "=11.1.0", features = ["no-entrypoint"] }
