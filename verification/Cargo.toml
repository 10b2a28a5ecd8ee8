[package]
name = "txlog"
version = "0.1.0"
edition = "2021"
publish = false

[dependencies]
log = "=0.4.34"
solana-sdk = "=5.0.0"
solana-sdk-ids = "*"
