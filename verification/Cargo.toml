[package]
name = "b2m"
version = "0.1.0"
edition = "2021"
publish = false

[dependencies]
crc32fast = "=1.5.4"
gmod = { version = "=16.0.2", default-features = false }
lazy_static = "=1.5.1"
reqwest = { version = "=0.12.28", default-features = false, features = ["blocking", "rustls-tls"] }
serde_json = "=1.0.154"
