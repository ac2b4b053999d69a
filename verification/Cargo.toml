[package]
name = "niva_dashboard"
version = "0.1.0"
edition = "2021"
publish = false

[dependencies]
rppal = "*"
serde = { version = "1", features = ["derive"] }
serde_json = "1"
log = "0.4"
