[package]
name = "token_transfer_hook"
version = "0.1.0"
edition = "2021"
publish = false

[dependencies]
solana-pubkey = "=3.0.0"
spl-tlv-account-resolution = "=0.11.4"
spl-transfer-hook-interface = "=2.1.0"
