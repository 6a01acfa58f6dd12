[package]
name = "security_service"
version = "0.1.0"
edition = "2021"
publish = false

[dependencies]
chrono = "=0.4.45"
lru = "=0.12.5"
serde = { version = "=1.0.229", features = ["derive"] }
serde_json = "1.0"
url = "=2.5.8"
uuid = { version = "=1.27.0", features = ["v4"] }
