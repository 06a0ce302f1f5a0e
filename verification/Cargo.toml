[package]
name = "infinispan"
version = "0.1.0"
edition = "2021"
publish = false

[dependencies]
base64 = "0.13"
http = "0.2"
reqwest = { version = "0.11", default-features = false }
serde = { version = "1", features = ["derive"] }
serde_json = "1"
thiserror = "1"
urlencoding = "2.1"
