[package]
name = "gmx_wallet"
version = "0.1.0"
edition = "2021"
publish = false

[dependencies]
bip39 = "2"
slip10 = "0.4"
ed25519-dalek = "1"
bs58 = "0.5"
anyhow = "1"
thiserror = "1"
clap = { version = "4", features = ["derive"] }
serde = { version = "1", features = ["derive"] }
serde_json = "1"
