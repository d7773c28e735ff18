[package]
name = "podcast_feed"
version = "0.1.0"
edition = "2021"
publish = false

[dependencies]
xml-rs = "*"
anyhow = "*"
reqwest = { version = "*", default-features = false, features = ["blocking"] }
