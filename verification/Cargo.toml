[package]
name = "quest-log"
version = "0.1.0"
edition = "2021"
publish = false

[dependencies]
argon2 = { version = "=0.5.3", features = ["std"] }
async-stream = "=0.3.6"
axum = "=0.8.9"
chrono = "=0.4.45"
chrono-tz = "=0.10.4"
clap = { version = "=4.6.7", features = ["derive"] }
crossterm = "=0.29.0"
datastar = { version = "=0.4.1", features = ["axum"] }
dotenvy = "=0.15.7"
futures = "=0.3.34"
maud = "=0.27.0"
ratatui = "=0.30.2"
rpassword = "=7.5.4"
sd-notify = "=0.5.0"
serde = { version = "=1.0.229", features = ["derive"] }
serde_json = "=1.0.154"
sqlx = { version = "=0.8.6", default-features = false, features = ["runtime-tokio", "sqlite", "macros", "migrate", "chrono"] }
thiserror = "2"
tokio = { version = "=1.54.1", features = ["full"] }
tokio-stream = { version = "=0.1.19", features = ["sync"] }
tracing = "=0.1.44"
tracing-error = "=0.2.1"
tracing-subscriber = { version = "=0.3.23", features = ["env-filter"] }
