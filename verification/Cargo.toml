[package]
name = "market_feed"
version = "0.1.0"
edition = "2021"
publish = false

[dependencies]
axum = "=0.6.20"
bigdecimal = "=0.4.11"
chrono = { version = "=0.4.45", default-features = false, features = ["std", "clock", "serde"] }
diesel = { version = "=2.3.14", default-features = false, features = ["postgres_backend", "numeric", "chrono"] }
diesel-derive-enum = { version = "=2.1.0", features = ["postgres"] }
dotenvy = "=0.15.7"
envy = "=0.4.2"
futures-util = "=0.3.34"
redis = { version = "=0.23.5", features = ["tokio-comp"] }
serde = { version = "=1.0.229", features = ["derive"] }
serde_json = { version = "=1.0.154", features = ["arbitrary_precision"] }
sqlx = { version = "0.8", default-features = false, features = ["runtime-tokio", "postgres", "bigdecimal"] }
tokio = { version = "=1.54.1", features = ["full"] }
tracing = "=0.1.44"
tracing-subscriber = { version = "=0.3.23", features = ["env-filter", "json"] }
