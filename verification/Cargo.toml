[package]
name = "sqlite_image"
version = "0.1.0"
edition = "2021"
publish = false

[dependencies]
rusqlite = { version = "*", features = ["backup", "bundled", "serialize"] }
serde_json = "*"
