[package]
name = "might"
version = "0.1.0"
edition = "2021"
publish = false

[dependencies]
dialoguer = "*"
reqwest = { version = "*", features = ["blocking", "json"] }
serde = { version = "1", features = ["derive"] }
serde_json = "1"
