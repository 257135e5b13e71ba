[package]
name = "kderive"
version = "0.1.0"
edition = "2021"
publish = false

[dependencies]
clap = "4"
kaspa-addresses = "*"
kaspa-bip32 = "*"
kaspa-wallet-keys = "*"
secp256k1 = { version = "0.29", features = ["global-context"] }
