[package]
name = "contract_state"
version = "0.1.0"
edition = "2021"
publish = false

[dependencies]
sha2 = "*"
base64 = "0.13"
borsh = { version = "*", features = ["derive"] }
