[package]
name = "oss_client"
version = "0.1.0"
edition = "2021"
publish = false

[dependencies]
base64 = "0.13"
json = "0.12"
rust-crypto = "0.2"
urlencoding = "2"
rust_util = "*"
reqwest = { version = "*", default-features = false }

[dev-dependencies]
hmac = "0.12"
sha1 = "0.10"
