[package]
name = "solkit"
version = "0.1.0"
edition = "2021"
publish = false

[dependencies]
bs58 = "0.5"
base64 = "0.22"
solana-sdk = "*"
axum = "*"
tokio = { version = "1", features = ["rt-multi-thread", "macros", "net"] }
serde = { version = "1", features = ["derive"] }
serde_json = "1"
