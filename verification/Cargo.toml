[package]
name = "tapsilat"
version = "0.1.0"
edition = "2021"
publish = false

[dependencies]
hmac = "0.12"
regex = "1"
serde = { version = "1", features = ["derive"] }
serde_json = "1"
sha2 = "0.10"
ureq = { version = "3", features = ["json"] }
