[package]
name = "mtls_gate"
version = "0.1.0"
edition = "2021"
publish = false

[dependencies]
openssl = "0.10"
hex = "0.4"
tokio = { version = "1", features = ["rt-multi-thread", "net", "io-util", "macros"] }
tokio-openssl = "0.6"
anyhow = "1"
