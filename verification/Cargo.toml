[package]
name = "solagate"
version = "0.1.0"
edition = "2021"
publish = false

[dependencies]
borsh = "*"
clap = { version = "*", features = ["derive"] }
solana-program = "=2.3.0"
solana-sdk = "=2.3.1"
thiserror = "*"
