[package]
name = "p2p_contract"
version = "0.1.0"
edition = "2021"
publish = false

[dependencies]
anchor-lang = "0.24.2"
spl-token = { version = "3.2", features = ["no-entrypoint"] }
borsh = "0.9"
