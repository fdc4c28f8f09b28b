[package]
name = "atm_parser"
version = "0.1.0"
edition = "2021"
publish = false

[dependencies]
csv = "1"
rusqlite = { version = "*", features = ["bundled"] }
serde = { version = "1", features = ["derive"] }
serde_json = "1"
