[package]
name = "certgen"
version = "0.1.0"
edition = "2021"
publish = false

[dependencies]
openssl = "*"
clap = "*"
colored = "*"
uuid = { version = "*", features = ["v4"] }
