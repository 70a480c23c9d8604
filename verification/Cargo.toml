[package]
name = "kiosk_store"
version = "0.1.0"
edition = "2021"
publish = false

[dependencies]
rusqlite = { version = "*", features = ["backup", "bundled"] }
serde = { version = "*", features = ["derive"] }

[dev-dependencies]
tempfile = "*"
