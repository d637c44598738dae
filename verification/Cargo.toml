[package]
name = "caching_client"
version = "0.1.0"
edition = "2021"
publish = false

[dependencies]
moka = { version = "=0.12.16", features = ["sync"] }
bytes = "=1.12.1"
reqwest = { version = "=0.13.5", default-features = false, features = ["json"] }
url = "=2.5.8"
serde = "=1.0.229"
freedom-config = "=1.1.0"
