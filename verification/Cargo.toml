[package]
name = "price_feed"
version = "0.1.0"
edition = "2021"
publish = false

[dependencies]
anyhow = "1"
async-trait = "0.1"
axum = { version = "0.7", features = ["ws"] }
bigdecimal = "0.4"
chrono = "0.4"
diesel = { version = "2", features = ["postgres", "r2d2", "numeric"] }
diesel_migrations = "2"
log = "0.4"
r2d2 = "0.8"
reqwest = { version = "0.12", default-features = false, features = ["json", "rustls-tls"] }
serde = { version = "1", features = ["derive"] }
serde_json = "1"
tokio = { version = "1", features = ["full"] }
tokio-util = "0.7"
toml = "0.8"
tower-http = { version = "0.6", features = ["fs"] }
tracing-subscriber = { version = "0.3", features = ["env-filter"] }
tracing-unwrap = "*"
