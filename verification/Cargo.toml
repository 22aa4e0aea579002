[package]
name = "ledger_client"
version = "0.1.0"
edition = "2021"
publish = false

[dependencies]
hex = "*"
rand = "*"
serde_json = "*"
reqwest = { version = "*", default-features = false, features = ["blocking", "json"] }
