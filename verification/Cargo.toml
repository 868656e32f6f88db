[package]
name = "japonfou"
version = "0.1.0"
edition = "2021"
publish = false

[dependencies]
anyhow = "1"
argon2 = { version = "0.5", features = ["std"] }
async-trait = "0.1"
axum = "0.6"
axum-extra = "0.7"
base64 = "0.21"
chrono = { version = "0.4", default-features = false, features = ["clock", "serde"] }
hyper = "0.14"
jsonwebtoken = "8"
once_cell = "1"
rand = "0.8"
redis = "0.23"
regex = "1"
rs-snowflake = "*"
rust_decimal = "1"
sea-query = { version = "0.28", features = ["with-chrono"] }
secrecy = { version = "0.8", features = ["serde"] }
serde = { version = "1", features = ["derive"] }
serde_json = "1"
sqlx = { version = "0.6", default-features = false, features = ["runtime-tokio-rustls", "postgres", "uuid", "chrono", "decimal"] }
thiserror = "1"
tokio = { version = "1", features = ["macros", "rt-multi-thread", "sync"] }
tower = "0.4"
tower-http = { version = "0.4", features = ["trace", "request-id", "util"] }
tracing = "0.1"
tracing-bunyan-formatter = "0.3"
tracing-log = "0.1"
tracing-subscriber = { version = "0.3", features = ["registry", "env-filter"] }
uuid = { version = "1", features = ["v4", "serde"] }
validator = "0.16"
