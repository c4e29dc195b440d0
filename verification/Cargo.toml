[package]
name = "tick_merge"
version = "0.1.0"
edition = "2021"
publish = false

[dependencies]
chrono = { version = "0.4", default-features = false, features = ["std"] }
csv = "1"
flate2 = "1"
serde = "1"
serde_derive = "1"
