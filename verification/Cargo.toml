[package]
name = "orbit_link"
version = "0.1.0"
edition = "2021"
publish = false

[dependencies]
anchor-lang = "=1.2.2"
solana-account = "=3.4.0"
solana-commitment-config = "=3.1.1"
solana-hash = "4"
solana-instruction = "=3.5.1"
solana-message = "=3.1.0"
solana-pubkey = "4"
solana-rpc-client = { version = "=3.1.14", default-features = false }
solana-rpc-client-api = "=3.1.14"
solana-signature = "=3.6.0"
solana-signer = "=3.0.1"
solana-system-interface = { version = "=3.3.0", features = ["bincode"] }
solana-transaction = { version = "=3.1.0", features = ["bincode", "serde"] }
solana-transaction-error = "=3.4.0"
solana-transaction-status = { version = "=3.1.14", default-features = false }
async-trait = "0.1"
futures = { version = "0.3", default-features = false, features = ["alloc"] }
serde_json = "1"
tokio = { version = "1", default-features = false, features = ["time"] }
tracing = { version = "0.1", default-features = false }
