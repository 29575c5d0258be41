[package]
name = "webscrape"
version = "0.1.0"
edition = "2021"
publish = false

[dependencies]
scraper = "*"
sha256 = "*"
file-storage = "*"
web-url = "*"
reqwest = { version = "*", default-features = false, features = ["blocking"] }
tokio = { version = "*", features = ["fs", "rt"] }
async-trait = "*"
bytes = "*"

[dev-dependencies]
enc = "*"
