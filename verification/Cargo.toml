[package]
name = "upbit_client"
version = "0.1.0"
edition = "2021"
publish = false

[dependencies]
serde = { version = "*", features = ["derive"] }
serde_json = "*"
sha2 = "*"
hmac = "*"
uuid = { version = "*", features = ["v4"] }
reqwest = { version = "*", default-features = false }

[dev-dependencies]
base64 = "*"
