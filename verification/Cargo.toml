[package]
name = "citra_web"
version = "0.1.0"
edition = "2021"
publish = false

[dependencies]
bcrypt = "0.15"
chrono = "0.4"
jsonwebtoken = "9"
rand = "0.8"
regex = "1"
rocket = { version = "0.5", features = ["json"] }
rsa = "0.9"
serde = { version = "1", features = ["derive"] }
serde_json = "1"
uuid = { version = "1", features = ["v4"] }
