[package]
name = "simples3"
version = "0.1.0"
edition = "2021"
publish = false

[dependencies]
base64 = "=0.9.3"
rust-crypto = "=0.2.36"
time = "=0.1.45"
reqwest = { version = "=0.12.28", default-features = false, features = ["rustls-tls"] }
