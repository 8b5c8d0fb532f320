[package]
name = "ledger_program"
version = "0.1.0"
edition = "2021"
publish = false

[dependencies]
bincode = "=1.3.3"
clap = { version = "4", features = ["derive"] }
futures = "0.3"
serde = { version = "1", features = ["derive"] }
serde_yaml = "0.9"
solana-program = "2"
tokio = { version = "1", features = ["macros", "rt-multi-thread", "time"] }
