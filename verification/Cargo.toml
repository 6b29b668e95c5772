[package]
name = "article_reader"
version = "0.1.0"
edition = "2021"
publish = false

[dependencies]
scraper = "=0.29.0"
html2md = "=0.2.17"
serde = { version = "=1.0.229", features = ["derive"] }
reqwest = "=0.12.28"
tokio = { version = "=1.54.1", features = ["time"] }
