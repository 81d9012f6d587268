[package]
name = "overengineered_hkt"
version = "0.1.0"
edition = "2021"
publish = false

[dependencies]
futures = "*"
dyn-clone = "*"
tap = "*"
naan = "*"
