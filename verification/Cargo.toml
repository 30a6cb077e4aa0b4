[package]
name = "lite_rpc_tests"
version = "0.1.0"
edition = "2021"
publish = false

[dependencies]
anyhow = "1"
log = "0.4"
serde_json = "1"
simplelog = "0.12"
solana-sdk = "1.18"
tokio = { version = "1", features = ["macros", "rt-multi-thread", "sync", "time"] }
