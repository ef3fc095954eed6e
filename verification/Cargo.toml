[package]
name = "app_settings"
version = "0.1.0"
edition = "2021"
publish = false

[dependencies]
sendgrid = "*"
serde = { version = "1", features = ["derive"] }
serde_json = "1"
ssql = "*"
