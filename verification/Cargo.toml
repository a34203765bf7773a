[package]
name = "local_pickup"
version = "0.1.0"
edition = "2021"
publish = false

[dependencies]
shopify_function = "*"
