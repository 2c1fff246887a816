[package]
name = "physics"
version = "0.1.0"
edition = "2021"
publish = false

[dependencies]
fixed = "1"
fixed-sqrt = "0.2"
rand = "0.8"
