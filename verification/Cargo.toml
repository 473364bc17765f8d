[package]
name = "smpl_wallet"
version = "0.1.0"
edition = "2021"
publish = false

[dependencies]
email_address = "=0.2.9"
axum = "=0.8.9"
tokio = { version = "=1.53.2", features = ["rt-multi-thread", "macros", "net", "signal", "time"] }
serde = { version = "=1.0.229", features = ["derive"] }
chrono = "=0.4.45"
bigdecimal = "=0.4.11"
pwhash = "=1.0.0"
hmac = "=0.12.1"
sha2 = "=0.10.9"
jwt = "=0.16.0"
