[package]
name = "account_registry"
version = "0.1.0"
edition = "2021"
publish = false

[dependencies]
secret-toolkit = { version = "0.10", features = ["storage", "crypto"] }
secret-cosmwasm-std = "1.1"
serde = { version = "1", features = ["derive"] }
schemars = "0.8"
thiserror = "1"
