[package]
name = "credstore"
version = "0.1.0"
edition = "2021"
publish = false

[dependencies]
base32 = "=0.5.1"
chrono = "=0.4.45"
rusqlite = { version = "=0.40.2", features = ["bundled"] }
serde = { version = "=1.0.229", features = ["derive"] }
serde_json = "=1.0.151"
tempfile = "=3.27.0"
totp-rs = "=5.7.2"
url = "=2.5.8"
