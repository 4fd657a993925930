[package]
name = "shield_deploy"
version = "0.1.0"
edition = "2021"
publish = false

[dependencies]
anyhow = "1"
bincode = "1.3"
chrono = "0.4"
clap = { version = "4", features = ["derive"] }
dialoguer = "0.11"
futures-util = "0.3"
indicatif = "0.17"
serde = { version = "1", features = ["derive"] }
serde_json = "1"
solana-commitment-config = "2.2"
solana-loader-v3-interface = { version = "5", features = ["bincode", "serde"] }
solana-sdk = "2.3"
solana-sdk-ids = "2.2"
solana-system-interface = { version = "1", features = ["bincode"] }
tokio = { version = "1", features = ["full"] }
