[package]
name = "ao3reader_core"
version = "0.1.0"
edition = "2021"
publish = false

[dependencies]
entities = "*"
serde = { version = "*", features = ["derive"] }
serde_json = "*"
toml = "*"
scraper = "*"
url = "*"
chrono = "*"
anyhow = "*"
