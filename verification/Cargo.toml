[package]
name = "pool_ledger"
version = "0.1.0"
edition = "2021"
publish = false

[dependencies]
arch_program = "*"
borsh = { version = "1", features = ["derive"] }
