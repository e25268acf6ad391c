[package]
name = "pump_swap_decoder"
version = "0.1.0"
edition = "2021"
publish = false

[dependencies]
serde = { version = "*", features = ["derive"] }
solana-instruction = "*"
carbon-core = "=1.0.0"
