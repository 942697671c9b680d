[package]
name = "tilepan"
version = "0.1.0"
edition = "2021"
publish = false

[dependencies]
image = { version = "=0.25.10", default-features = false, features = ["png"] }
futures-concurrency = "=7.7.1"
