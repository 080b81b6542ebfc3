[package]
name = "umbra"
version = "0.1.0"
edition = "2021"
publish = false

[dependencies]
curve25519-dalek = { version = "4", features = ["rand_core"] }
rand_core = { version = "0.6", features = ["getrandom"] }
serde = { version = "1", features = ["derive"] }
sha2 = "0.10"
solana-sdk = { version = "2", default-features = false }
solana-signature = "2"
solana-system-interface = { version = "1", features = ["bincode"] }
solana-transaction = "2"
zeroize = { version = "1", features = ["zeroize_derive"] }

[dev-dependencies]
ed25519-dalek = "2"
rand_chacha = "0.3"
