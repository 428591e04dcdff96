[package]
name = "memo"
version = "0.1.0"
edition = "2021"
publish = false

[dependencies]
validator = "=0.21.0"
base64 = "=0.22.1"
serde = { version = "=1.0.229", features = ["derive"] }
serde_json = "=1.0.154"
chrono = "=0.4.45"
jsonwebtoken = "=9.3.1"
axum = { version = "=0.8.9", features = ["multipart"] }
tokio = { version = "=1.54.1", features = ["full"] }
turso = { version = "*", default-features = false }
moka = { version = "*", default-features = false, features = ["sync"] }
rpassword = "*"
text_io = "*"
tower = "*"
bytes = "*"
