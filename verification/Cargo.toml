[package]
name = "orvane_auth"
version = "0.1.0"
edition = "2021"
publish = false

[dependencies]
argon2 = "0.5"
sha2 = "0.10"
hex = "0.4"
data-encoding = "2"
rand = "0.8"
validator = "*"
axum = "*"
axum-extra = { version = "*", features = ["cookie"] }
cookie = "*"
tokio = { version = "1", features = ["rt-multi-thread", "macros", "net"] }
serde = { version = "1", features = ["derive"] }
serde_json = "1"
chrono = "0.4"
resend-rs = "*"
