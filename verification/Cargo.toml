[package]
name = "pinocchio_vault"
version = "0.1.0"
edition = "2021"
publish = false

[dependencies]
pinocchio = { version = "=0.11.2", features = ["cpi"] }
pinocchio-log = "=0.5.1"
pinocchio-system = "=0.6.1"
shank = "=0.4.9"
solana-address = { version = "=2.9.0", features = ["curve25519", "decode"] }
