[package]
name = "wallet_core"
version = "0.1.0"
edition = "2021"
publish = false

[dependencies]
bs58 = "=0.5.1"
bincode = "=1.3.3"
solana-transaction = { version = "2", features = ["serde", "bincode"] }
solana-signature = { version = "2", features = ["verify"] }
solana-keypair = "2"
solana-signer = "2"
solana-pubkey = "2"
solana-system-interface = { version = "1", features = ["bincode"] }
solana-rpc-client = { version = "=2.3.13", default-features = false }
tokio = { version = "1", features = ["rt-multi-thread", "time", "macros"] }
async-channel = "2"
