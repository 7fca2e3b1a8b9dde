[package]
name = "account_core"
version = "0.1.0"
edition = "2021"
publish = false

[dependencies]
bcrypt = "=0.19.3"
validator = "=0.21.0"
jsonwebtoken = { version = "=11.1.0", default-features = false, features = ["rust_crypto"] }
base64 = "=0.23.1"
uuid = { version = "=1.27.0", features = ["v4"] }
chrono = "=0.4.45"
ntex = { version = "=3.12.3", features = ["tokio"] }
serde = { version = "=1.0.229", features = ["derive"] }
serde_json = "=1.0.151"
dotenvy = "=0.15.7"
