[package]
name = "minne_backend"
version = "0.1.0"
edition = "2021"
publish = false

[dependencies]
jsonwebtoken = { version = "=11.1.0", features = ["rust_crypto"] }
bcrypt = "=0.19.3"
getrandom = "=0.4.3"
uuid = { version = "=1.27.0", features = ["v4"] }
serde_json = "=1.0.151"
