[package]
name = "libssl_error"
version = "0.1.0"
edition = "2021"
publish = false

[dependencies]
rustls = { version = "0.23", default-features = false, features = ["std"] }
log = "0.4"
openssl-sys = "0.9"
