[package]
name = "dex_account"
version = "0.1.0"
edition = "2021"
publish = false

[dependencies]
argon2 = { version = "=0.5.3", features = ["std"] }
axum = "=0.7.9"
base32 = "=0.5.1"
base64 = "=0.22.1"
chrono = { version = "=0.4.45", features = ["serde"] }
dashmap = "=6.2.1"
governor = "=0.6.3"
jsonwebtoken = "=9.3.1"
metrics = "=0.23.1"
rand = "=0.8.8"
reqwest = { version = "=0.12.28", default-features = false, features = ["json"] }
serde = { version = "=1.0.229", features = ["derive"] }
serde_json = "=1.0.154"
sha2 = "=0.10.9"
sqlx = { version = "=0.8.6", default-features = false, features = ["runtime-tokio", "postgres", "chrono", "uuid", "macros"] }
thiserror = "=1.0.69"
tokio = { version = "=1.54.1", features = ["full"] }
totp-rs = { version = "=5.7.2", features = ["otpauth"] }
tower-http = { version = "=0.5.2", features = ["cors", "trace"] }
tower_governor = "=0.4.3"
tracing = "=0.1.44"
tracing-subscriber = { version = "=0.3.23", features = ["env-filter"] }
uuid = { version = "=1.29.0", features = ["v4", "v7", "serde"] }
