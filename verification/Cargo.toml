[package]
name = "counting_contract"
version = "0.2.0"
edition = "2021"
publish = false

[dependencies]
cosmwasm-std = "*"
serde = { version = "*", features = ["derive"] }
