[package]
name = "scripture_retention_algorithm"
version = "0.1.0"
edition = "2021"
publish = false

[dependencies]
chrono = { version = "0.4", default-features = false, features = ["std"] }
itertools = "0.14"
