[package]
name = "hive_gateway"
version = "0.1.0"
edition = "2021"
publish = false

[dependencies]
anyhow = "1"
axum = "0.8"
clap = { version = "4", features = ["derive", "env"] }
jsonwebtoken = "9"
once_cell = "1"
opentelemetry = { version = "*", features = ["metrics"] }
opentelemetry-otlp = { version = "*", default-features = false, features = ["metrics", "http-proto", "reqwest-client"] }
opentelemetry_sdk = { version = "*", features = ["metrics", "rt-tokio"] }
opentelemetry-semantic-conventions = "*"
reqwest = { version = "0.12", default-features = false, features = ["json", "rustls-tls"] }
serde = { version = "1", features = ["derive"] }
serde_json = "1"
sqlx = { version = "0.8", default-features = false, features = ["runtime-tokio", "postgres", "uuid", "migrate"] }
tokio = { version = "1", features = ["full"] }
tracing = "0.1"
tracing-subscriber = "0.3"
url = "2"
uuid = { version = "1", features = ["v4"] }
