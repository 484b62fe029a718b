[package]
name = "auth_core"
version = "0.1.0"
edition = "2021"
publish = false

[dependencies]
bcrypt = "*"
jsonwebtoken = "9"
rand = "0.8"
serde_json = "1"
serde = { version = "1", features = ["derive"] }
chrono = "0.4"
dotenv = "0.15"
