[package]
name = "kapi"
version = "0.1.0"
edition = "2021"
publish = false

[dependencies]
base64 = "0.13"
hmac-sha512 = "*"
sha2ni = "0.8"
url = "2"
reqwest = { version = "0.11", default-features = false, features = ["blocking"] }
serde = { version = "1", features = ["derive"] }
serde_json = "1"
structopt = "0.3"
