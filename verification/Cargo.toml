[package]
name = "app_boot"
version = "0.1.0"
edition = "2021"
publish = false

[dependencies]
rustls = "*"
