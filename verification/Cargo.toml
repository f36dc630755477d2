[package]
name = "chat_app"
version = "0.1.0"
edition = "2021"
publish = false

[dependencies]
anyhow = "1"
async-trait = "0.1"
axum = { version = "0.8", features = ["ws"] }
axum-extra = { version = "*", features = ["cookie", "form"] }
axum-prometheus = "*"
chrono = { version = "0.4", features = ["serde"] }
dashmap = "6"
futures-util = "0.3"
metrics = "*"
opentelemetry = "*"
opentelemetry-otlp = { version = "*", default-features = false, features = ["grpc-tonic", "trace"] }
opentelemetry_sdk = "*"
rdkafka = "*"
scylla = { version = "1", features = ["chrono-04"] }
serde = { version = "1", features = ["derive"] }
serde_json = "1"
tera = { version = "1", default-features = false }
tokio = { version = "1", features = ["full"] }
tower-http = { version = "*", features = ["fs", "trace"] }
tracing = "0.1"
tracing-opentelemetry = "*"
tracing-subscriber = { version = "0.3", features = ["env-filter"] }
uuid = { version = "1", features = ["v1", "v4", "serde"] }
