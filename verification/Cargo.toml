[package]
name = "authcore"
version = "0.1.0"
edition = "2021"
publish = false

[dependencies]
argon2 = { version = "=0.5.3", features = ["std"] }
hmac = "=0.12.1"
sha2 = "=0.10.9"

[dev-dependencies]
jwt = "=0.16.0"
serde_json = "=1.0.151"
