[package]
name = "review_pipeline"
version = "0.1.0"
edition = "2021"
publish = false

[dependencies]
anyhow = "1"
axum = "*"
base64 = "*"
chromiumoxide = "*"
dotenvy = "*"
futures = "*"
html2text = "*"
once_cell = "*"
pulldown-cmark = "*"
rand = "0.9"
regex = "1"
reqwest = { version = "0.12", features = ["json", "multipart", "blocking"] }
scraper = "*"
serde = { version = "1", features = ["derive"] }
serde_json = "1"
serde_urlencoded = "*"
sha2 = "0.10"
tokio = { version = "1", features = ["full"] }
tracing = "*"
tracing-subscriber = { version = "*", features = ["env-filter"] }
urlencoding = "*"
