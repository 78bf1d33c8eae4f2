[package]
name = "eas_client"
version = "0.1.0"
edition = "2021"
publish = false

[dependencies]
alloy = { version = "=1.8.3", default-features = false, features = ["std", "sol-types", "contract", "provider-http", "signer-local", "rpc-types", "network", "reqwest"] }
chrono = { version = "=0.4.45", features = ["serde"] }
hex = "=0.4.3"
reqwest = { version = "=0.12.28", default-features = false }
serde = { version = "=1.0.229", features = ["derive"] }
thiserror = "=2.0.21"
