[package]
name = "auction"
version = "0.1.0"
edition = "2021"
publish = false

[dependencies]
solana-program = "1.18"
spl-token = { version = "4.0", features = ["no-entrypoint"] }

[dev-dependencies]
borsh = "1"
