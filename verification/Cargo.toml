[package]
name = "u2f_register"
version = "0.1.0"
edition = "2021"
publish = false

[dependencies]
base64 = "0.22"
ring = "0.17"
serde_json = "1"
webpki = "0.22"
