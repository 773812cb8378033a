[package]
name = "audit_app"
version = "0.1.0"
edition = "2021"
publish = false

[dependencies]
serde = { version = "1", features = ["derive"] }
serde_json = "1"
sha2 = "0.10"
hex = "0.4"
uuid = { version = "1", features = ["v7"] }
rand = "0.8"
argon2 = "0.5"
aes-gcm = "0.10"
rusqlite = { version = "0.31", features = ["bundled"] }
parking_lot = "0.12"
keyring = "3"
tracing = "0.1"
