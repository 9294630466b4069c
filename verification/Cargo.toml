[package]
name = "nymstr_core"
version = "0.1.0"
edition = "2021"
publish = false

[dependencies]
openssl = "0.10"
base64 = "0.22"
serde_json = "1"
