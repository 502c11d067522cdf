[package]
name = "workspace_kit"
version = "0.1.0"
edition = "2021"
publish = false

[dependencies]
jsonwebtoken = "=9.3.1"
argon2 = "=0.5.3"
password-hash = { version = "=0.5.0", features = ["getrandom"] }
validator = "=0.21.0"
serde_json = "=1.0.151"
