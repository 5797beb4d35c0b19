[package]
name = "aeron_client_rs"
version = "0.1.0"
edition = "2021"
publish = false

[dependencies]
libaeron-sys = "*"
anyhow = "*"
