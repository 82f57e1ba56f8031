[package]
name = "geyser-postgres-transaction"
version = "0.1.0"
edition = "2021"
publish = false

[dependencies]
agave-geyser-plugin-interface = "=3.0.14"
chrono = { version = "0.4", default-features = false, features = ["clock", "std"] }
log = "0.4"
postgres = { version = "0.19", features = ["with-chrono-0_4"] }
postgres-types = { version = "0.2", features = ["derive", "with-chrono-0_4"] }
solana-message = { version = "3.0", features = ["bincode", "blake3"] }
solana-sdk = "3.0"
solana-transaction-status = "=3.0.14"
