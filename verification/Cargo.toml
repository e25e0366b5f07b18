[package]
name = "money_transfer"
version = "0.1.0"
edition = "2021"
publish = false

[dependencies]
uuid = { version = "*", features = ["v4"] }
chrono = "*"
hex = "*"
ring = "*"
serde = { version = "*", features = ["derive"] }
serde_json = "*"
