[package]
name = "feedback"
version = "0.1.0"
edition = "2021"
publish = false

[dependencies]
soroban-sdk = "=28.0.0"
zephyr-sdk = "=0.2.4"
hex = "=0.4.3"
serde = { version = "=1.0.229", features = ["derive"] }

[dev-dependencies]
soroban-sdk = { version = "=28.0.0", features = ["testutils"] }
