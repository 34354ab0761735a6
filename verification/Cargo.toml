[package]
name = "solana_raffle"
version = "0.1.0"
edition = "2021"
publish = false

[dependencies]
anchor-lang = { version = "=0.28.0", features = ["init-if-needed"] }
anchor-spl = "=0.28.0"
arrayref = "=0.3.9"
mpl-token-metadata = { version = "=1.13.2", features = ["no-entrypoint"] }
spl-memo = "=4.0.0"
spl-token = "=4.0.0"
