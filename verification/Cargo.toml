[package]
name = "michromer"
version = "0.2.0"
edition = "2021"
publish = false

[dependencies]
serde_json = { version = "*", features = ["preserve_order"] }
chrono = "*"
hyper = "0.10"
