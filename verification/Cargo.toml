[package]
name = "chat_scraper"
version = "0.1.0"
edition = "2021"
publish = false

[dependencies]
serde_json = "*"
regex = "*"
reqwest = { version = "*", default-features = false, features = ["blocking"] }
