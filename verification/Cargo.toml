[package]
name = "sdk_core"
version = "0.1.0"
edition = "2021"
publish = false

[dependencies]
lightning-invoice = "=0.34.1"
rusqlite = { version = "=0.40.2", features = ["bundled"] }
reqwest = { version = "=0.13.5", default-features = false }
serde = { version = "=1.0.229", features = ["derive"] }
serde_json = "=1.0.151"

[dev-dependencies]
bitcoin = "=0.32.102"
