[package]
name = "bitcoin_ffi"
version = "0.1.0"
edition = "2021"
publish = false

[dependencies]
bitcoin = { version = "=0.32.102", features = ["base64"] }
thiserror = "=1.0.69"
