[package]
name = "chores"
version = "0.1.0"
edition = "2021"
publish = false

[dependencies]
anyhow = "1"
axum = "0.5"
chrono = "0.4"
clap = { version = "4", features = ["derive"] }
cron = "0.12"
futures = "0.3"
humantime-serde = "1"
metar = "*"
mime_guess = "2"
reqwest = { version = "0.11", default-features = false, features = ["rustls-tls"] }
serde = { version = "1", features = ["derive"] }
serde_json = "1"
sqlx = { version = "0.6", default-features = false, features = ["runtime-tokio-rustls", "sqlite", "macros", "migrate"] }
tokio = { version = "1", features = ["full"] }
tower-http = { version = "0.3", features = ["fs"] }
tracing = "0.1"
tracing-subscriber = "0.3"
