[package]
name = "pg_bm25"
version = "0.1.0"
edition = "2021"
publish = false

[dependencies]
pgrx = { version = "=0.11.4", features = ["pg15"] }
serde = { version = "=1.0.229", features = ["derive"] }
serde_json = "=1.0.154"
tantivy = "=0.22.1"
