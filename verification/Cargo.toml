[package]
name = "smeta_check"
version = "0.1.0"
edition = "2021"
publish = false

[dependencies]
sha2 = "=0.10.9"
hex = "=0.4.3"
rand = "=0.9.5"
totp-rs = { version = "=5.7.2", features = ["otpauth", "gen_secret"] }
argon2 = "=0.5.3"
uuid = { version = "=1.29.0", features = ["v4", "serde"] }
time = { version = "=0.3.55", features = ["formatting", "parsing"] }
jsonwebtoken = "=9.3.1"
base64 = "=0.22.1"
serde = { version = "=1.0.229", features = ["derive"] }
serde_json = "=1.0.154"
anyhow = "=1.0.104"
axum = { version = "=0.8.9", features = ["multipart"] }
axum-extra = { version = "=0.10.3", features = ["cookie"] }
sqlx = { version = "=0.8.6", default-features = false, features = ["postgres", "runtime-tokio", "uuid", "time", "migrate", "macros"] }
tokio = { version = "=1.54.1", features = ["full"] }
tower-http = { version = "=0.6.11", features = ["timeout", "cors", "request-id", "fs"] }
tracing = "=0.1.44"
tracing-subscriber = { version = "=0.3.23", features = ["json", "env-filter"] }
tracing-appender = "=0.2.5"
metrics = "=0.24.6"
metrics-exporter-prometheus = { version = "=0.18.3", default-features = false, features = ["http-listener"] }
governor = "=0.10.4"
utoipa = { version = "=5.5.0", features = ["uuid"] }
reqwest = { version = "=0.12.28", default-features = false, features = ["json", "rustls-tls"] }
lettre = { version = "=0.11.23", default-features = false, features = ["builder", "smtp-transport", "tokio1", "tokio1-rustls-tls"] }
calamine = "=0.38.0"
fluent-bundle = "=0.16.0"
fluent-syntax = "=0.12.0"
unic-langid = { version = "=0.9.6", features = ["macros"] }
