[package]
name = "dingtalk_sdk"
version = "0.1.0"
edition = "2021"
publish = false

[dependencies]
base64 = "=0.22.1"
hmac = "=0.12.1"
reqx = "=0.1.20"
serde = { version = "=1.0.229", features = ["derive"] }
serde_json = "=1.0.151"
sha2 = "=0.10.9"
thiserror = "=1.0.69"
url = "=2.5.8"

[dev-dependencies]
urlencoding = "=2.1.3"
