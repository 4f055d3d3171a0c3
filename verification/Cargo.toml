[package]
name = "beetle"
version = "0.1.0"
edition = "2021"
publish = false

[dependencies]
ahash = "0.8"
unsigned-varint = { version = "0.7", features = ["asynchronous_codec"] }
asynchronous-codec = "0.6"
bytes = "1"
crossterm = "0.25"
http = "0.2"
anyhow = "1"
serde_json = "1"
