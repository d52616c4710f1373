[package]
name = "kurlyk"
version = "0.1.0"
edition = "2021"
publish = false

[dependencies]
config = { version = "=0.15.27", default-features = false, features = ["toml", "json", "yaml", "ini", "ron", "json5"] }
chrono = "=0.4.45"
rand = "=0.10.3"
tokio = { version = "=1.54.1", features = ["full"] }
tokio-util = { version = "=0.7.20", features = ["rt"] }
redis = { version = "=1.8.1", features = ["tokio-comp", "streams"] }
deadpool-redis = "=0.23.1"
sqlx = { version = "=0.9.0", default-features = false, features = ["postgres", "runtime-tokio", "chrono"] }
tracing = "=0.1.44"
tracing-subscriber = { version = "=0.3.23", features = ["env-filter"] }
anyhow = "=1.0.104"
serde = { version = "=1.0.229", features = ["derive"] }
serde_json = "=1.0.154"
thiserror = "=2.0.21"
itertools = "=0.15.0"
metrics = "=0.24.6"
async-trait = "=0.1.92"
tonic = "=0.14.9"
axum = "=0.8.9"
tower = "=0.5.3"
opentelemetry = "=0.33.1"
opentelemetry_sdk = "=0.33.1"
opentelemetry-otlp = { version = "=0.33.1", features = ["grpc-tonic", "trace", "metrics", "logs"] }
opentelemetry-appender-tracing = "=0.33.1"
tracing-opentelemetry = "=0.34.0"
metrics-exporter-prometheus = "=0.18.3"
