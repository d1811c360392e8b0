[package]
name = "margin_engine"
version = "0.1.0"
edition = "2021"
publish = false

[dependencies]
anchor-lang = "0.28"
base64 = "0.21"
fixed = "1"
futures-util = "0.3"
pyth-sdk-solana = "0.8"
serde = { version = "1", features = ["derive"] }
solana-address-lookup-table-program = "1.16"
solana-sdk = "1.16"
switchboard-v2 = "0.4"
tokio = { version = "1", features = ["rt", "sync", "time", "macros"] }
