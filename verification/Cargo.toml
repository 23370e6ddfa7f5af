[package]
name = "book_search"
version = "0.1.0"
edition = "2021"
publish = false

[dependencies]
tantivy = { version = "=0.26.2", features = ["zstd-compression"] }
cang-jie = "=0.21.0"
jieba-rs = "=0.11.0"
serde = { version = "=1.0.229", features = ["derive"] }
serde_with = "=3.24.0"
