[package]
name = "resto_core"
version = "0.1.0"
edition = "2021"
publish = false

[dependencies]
jsonwebtoken = { version = "=11.1.0", features = ["rust_crypto"] }
serde_json = "=1.0.151"
rand = "=0.10.3"
chrono = "=0.4.45"
redis = "=1.7.1"
postgres = { version = "=0.19.14", features = ["with-uuid-1"] }
dotenv = "=0.15.0"
uuid = { version = "=1.27.0", features = ["v4"] }
