[package]
name = "spliff"
version = "0.1.0"
edition = "2021"
publish = false

[dependencies]
solana-pubkey = "=2.4.0"
solana-keypair = "=2.2.3"
solana-signer = "=2.2.1"
solana-instruction = "=2.3.3"
solana-transaction = { version = "=2.2.3", features = ["bincode"] }
solana-system-interface = { version = "=1.0.0", features = ["bincode"] }
solana-rpc-client = { version = "=2.3.13", default-features = false }
solana-rpc-client-api = "=2.3.13"
solana-account-decoder-client-types = "=2.3.13"
spl-token = "=7.0.0"
spl-associated-token-account-client = "=2.0.0"
serde = { version = "1", features = ["derive"] }
serde_json = "1"
