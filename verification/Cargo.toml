[package]
name = "gdrive"
version = "0.1.0"
edition = "2021"
publish = false

[dependencies]
google-drive3 = "5.0.2"
