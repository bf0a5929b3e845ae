[package]
name = "dcc_decode"
version = "0.1.0"
edition = "2021"
publish = false

[dependencies]
flate2 = "*"
ring = "*"
x509-parser = "*"
base64 = "*"
serde = { version = "*", features = ["derive"] }
serde_json = "*"
