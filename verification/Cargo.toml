[package]
name = "downloader"
version = "0.1.0"
edition = "2021"
publish = false

[dependencies]
anyhow = "*"
humansize = "*"
reqwest = { version = "*", default-features = false, features = ["blocking"] }
