[package]
name = "addresses"
version = "0.1.0"
edition = "2021"
publish = false

[dependencies]
log = "0.4"
rusqlite = "*"
serde = { version = "1", features = ["derive"] }
serde_derive = "1"
serde_json = "1"
