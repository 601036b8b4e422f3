[package]
name = "bsds_core"
version = "0.1.0"
edition = "2021"
publish = false

[dependencies]
aes-gcm = "=0.10.3"
base64 = "=0.22.1"
bcrypt = "=0.15.1"
chrono = { version = "=0.4.45", default-features = false, features = ["std", "clock"] }
hex = "=0.4.3"
hmac = "=0.12.1"
rand = "=0.8.8"
sha2 = "=0.10.9"
uuid = { version = "=1.29.0", features = ["v4"] }
serde = { version = "=1.0.229", features = ["derive"] }
serde_json = "=1.0.154"
axum = "0.7"
tokio = { version = "1", features = ["rt-multi-thread", "macros"] }
sqlx = { version = "0.8", default-features = false, features = ["sqlite", "runtime-tokio"] }
reqwest = { version = "0.12", default-features = false, features = ["json", "rustls-tls"] }
thiserror = "1"
tracing = "0.1"
dotenvy = "0.15"
async-trait = "0.1"
tower-http = { version = "0.5", features = ["cors", "trace"] }
tokio-cron-scheduler = "0.13"
