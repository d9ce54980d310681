[package]
name = "syron_minter"
version = "0.1.0"
edition = "2021"
publish = false

[dependencies]
sha2 = "*"
hex = "*"
serde = { version = "*", features = ["derive"] }
serde_json = "*"
serde_bytes = "*"
candid = "*"
num-traits = "*"
ic-cdk = "*"
ic-btc-interface = "*"
icrc-ledger-types = "*"
ic-xrc-types = "*"
ic-management-canister-types = "*"
