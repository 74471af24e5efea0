[package]
name = "flash_loan"
version = "0.1.0"
edition = "2021"
publish = false

[dependencies]
solana-program = "=3.0.0"
spl-token = { version = "=9.0.0", features = ["no-entrypoint"] }
spl-associated-token-account = { version = "=8.0.0", features = ["no-entrypoint"] }
borsh = { version = "=1.8.1", features = ["derive"] }
thiserror = "=2.0.21"
shank = "=0.4.9"
