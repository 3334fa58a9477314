[package]
name = "lock_cli"
version = "0.1.0"
edition = "2021"
publish = false

[dependencies]
anchor-lang = "0.31"
anchor-spl = { version = "0.31", features = ["metadata", "memo"] }
anyhow = "1"
clap = { version = "4", features = ["derive"] }
rand = "0.8"
solana-sdk = "2"
spl-associated-token-account = "6"

[dev-dependencies]
borsh = "1"
