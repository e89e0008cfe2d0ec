[package]
name = "jito_bam_boost_cli"
version = "0.1.0"
edition = "2021"
publish = false

[dependencies]
anyhow = "*"
borsh = "*"
bs58 = "*"
clap = { version = "4", features = ["derive"] }
log = "*"
reqwest = { version = "*", features = ["json"] }
serde_json = "*"
solana-hash = "*"
solana-instruction = "*"
solana-keypair = "*"
solana-pubkey = { version = "*", features = ["curve25519"] }
solana-system-interface = { version = "*", features = ["bincode"] }
solana-transaction = { version = "*", features = ["bincode"] }
spl-associated-token-account-interface = "*"
spl-token-interface = "*"
tokio = { version = "1", features = ["macros", "rt-multi-thread"] }
