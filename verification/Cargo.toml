[package]
name = "near_receipts"
version = "0.1.0"
edition = "2021"
publish = false

[dependencies]
borsh = "1"
byteorder = "1"
chrono = "0.4"
near-crypto = "0.23.0"
near-primitives-core = "0.23.0"
near-vm-errors = "0.17.0"
rand = "0.7"
serde = { version = "1", features = ["derive"] }
serde_json = "1"
