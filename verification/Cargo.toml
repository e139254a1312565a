[package]
name = "solami_sniffer"
version = "0.1.0"
edition = "2021"
publish = false

[dependencies]
solana-sdk = "2"
spl-associated-token-account = "7"
base64 = "0.22"
rand = "0.9"
bs58 = "0.5"
serde = { version = "1", features = ["derive"] }
serde_json = "1"
chrono = { version = "0.4", default-features = false, features = ["clock", "std"] }
dirs = "6"
dotenvy = "0.15"
thiserror = "2"
tracing = "0.1"
tokio = { version = "1", features = ["rt-multi-thread", "macros", "sync", "time"] }
