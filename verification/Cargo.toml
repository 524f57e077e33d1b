[package]
name = "chat_services"
version = "0.1.0"
edition = "2021"
publish = false

[dependencies]
chrono = { version = "=0.4.45", default-features = false, features = ["clock", "std"] }
anyhow = "1"
async-trait = "0.1"
axum = "0.8"
dotenv = "0.15"
futures = "0.3"
mongodb = { version = "3", default-features = false, features = ["compat-3-0-0", "rustls-tls"] }
rdkafka = "0.37"
reqwest = { version = "0.12", default-features = false, features = ["rustls-tls"] }
scraper = "0.22"
serde = { version = "1", features = ["derive"] }
serde_json = "1"
serenity = { version = "0.12", default-features = false, features = ["builder", "cache", "client", "gateway", "model", "http", "rustls_backend", "utils"] }
sqlx = { version = "0.8", default-features = false, features = ["postgres", "runtime-tokio", "macros", "migrate"] }
thiserror = "2"
tokio = { version = "1", features = ["rt-multi-thread", "macros", "sync", "time"] }
tower-http = { version = "0.6", default-features = false, features = ["catch-panic"] }
tracing = "0.1"
uuid = { version = "1", features = ["v4"] }
