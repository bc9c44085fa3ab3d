[package]
name = "btc_pay"
version = "0.1.0"
edition = "2021"
publish = false

[dependencies]
bitcoin = { version = "0.28", features = ["rand"] }
rand = "0.8"
hex = "0.4"
hmac = "0.12"
sha2 = "0.10"
uuid = { version = "1", features = ["v4"] }
serde = { version = "1", features = ["derive"] }
serde_json = "1"
chrono = "0.4"
rusqlite = { version = "0.31", features = ["bundled"] }
jsonwebtoken = "9"
reqwest = { version = "0.12", default-features = false, features = ["json"] }
tokio = { version = "1", features = ["rt-multi-thread", "macros", "time"] }
log = "0.4"
env_logger = "0.11"
