[package]
name = "sgx-verify"
version = "0.1.0"
edition = "2021"
publish = false

[dependencies]
base64 = "0.13"
chrono = { version = "0.4", default-features = false, features = ["std", "serde"] }
der = "0.6"
hex = "0.4"
ring = "0.16"
serde = { version = "1", features = ["derive"] }
serde_json = "1"
webpki = "0.21"
x509-cert = "0.1"
