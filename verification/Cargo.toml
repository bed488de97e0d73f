[package]
name = "mini_service_locator"
version = "0.1.0"
edition = "2021"
publish = false

[dependencies]
any_handle = "*"
