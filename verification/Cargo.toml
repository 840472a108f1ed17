[package]
name = "token"
version = "0.1.0"
edition = "2021"
publish = false

[dependencies]
litesvm = "=0.16.0"
solana-hash = "4"
solana-instruction = "3"
solana-keypair = "3"
solana-pubkey = "3"
solana-signer = "3"
solana-transaction = { version = "4", features = ["verify", "wincode"] }
solana-transaction-error = "3"
spl-token = { version = "9", features = ["no-entrypoint"] }

[dev-dependencies]
solana-system-interface = "3"
