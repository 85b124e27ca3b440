[package]
name = "arbiter"
version = "0.1.0"
edition = "2021"
publish = false

[dependencies]
solana-program = "*"
anyhow = "*"
clap = { version = "*", features = ["derive"] }
dialoguer = "*"
indicatif = "*"
serde = { version = "*", features = ["derive"] }
serde_json = "*"
shellexpand = "*"
