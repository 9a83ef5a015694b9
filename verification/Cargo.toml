[package]
name = "mimir_cardinality_analyzer"
version = "0.1.0"
edition = "2021"
publish = false

[dependencies]
anyhow = "1"
axum = "*"
axum-server = "*"
chrono = "0.4"
clap = { version = "4", features = ["derive"] }
hyper = "1"
metrics = "*"
metrics-exporter-prometheus = { version = "*", default-features = false }
once_cell = "1"
regex = "1"
reqwest = { version = "0.12", default-features = false, features = ["json", "rustls-tls"] }
scraper = "*"
serde = { version = "1", features = ["derive"] }
serde_json = "1"
serde_norway = "*"
tokio = { version = "1", features = ["full"] }
tracing = "0.1"
tracing-subscriber = { version = "0.3", features = ["env-filter"] }
