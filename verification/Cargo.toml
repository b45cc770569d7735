[package]
name = "js_to_rust"
version = "0.1.0"
edition = "2021"
publish = false

[dependencies]
oxc = { version = "0.34", features = ["semantic"] }
