[package]
name = "airfrog"
version = "0.1.0"
edition = "2021"
publish = false

[dependencies]
httparse = { version = "1", default-features = false }
serde = { version = "1", features = ["derive"] }
serde_json = "1"
sdrr-fw-parser = "*"
embedded-io-async = "*"
