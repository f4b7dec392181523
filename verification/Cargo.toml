[package]
name = "card_program"
version = "0.1.0"
edition = "2021"
publish = false

[dependencies]
bs58 = "=0.5.1"
solana-program = "=2.3.0"
spl-associated-token-account = { version = "=7.0.0", features = ["no-entrypoint"] }
spl-token = { version = "=8.0.0", features = ["no-entrypoint"] }
spl-token-2022 = { version = "=8.0.1", features = ["no-entrypoint"] }

[dev-dependencies]
borsh = "=1.5.7"
