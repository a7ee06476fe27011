[package]
name = "reminders"
version = "0.1.0"
edition = "2021"
publish = false

[dependencies]
chrono = "*"
getopts = "*"
yaml-rust = "*"
colored = "*"
reqwest = { version = "*", default-features = false, features = ["blocking", "json"] }
