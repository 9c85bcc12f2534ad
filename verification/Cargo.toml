[package]
name = "http_head"
version = "0.1.0"
edition = "2021"
publish = false

[dependencies]
httparse = "1"
