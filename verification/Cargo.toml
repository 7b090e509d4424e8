[package]
name = "maildir_monitor"
version = "0.1.0"
edition = "2021"
publish = false

[dependencies]
mailparse = "*"
uuid = { version = "*", features = ["v4"] }
