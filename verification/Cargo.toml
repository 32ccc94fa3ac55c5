[package]
name = "monero-rpc"
version = "0.1.0"
edition = "2021"
publish = false

[dependencies]
anyhow = "*"
jsonrpc-core = "*"
monero = "*"
reqwest = { version = "*", default-features = false, features = ["blocking", "json"] }
serde_json = "*"
uuid = { version = "*", features = ["v4"] }
