[package]
name = "syncserver"
version = "0.1.0"
edition = "2021"
publish = false

[dependencies]
regex = "=1.13.1"
url = "=2.5.8"
sentry = { version = "=0.49.3", default-features = false, features = ["backtrace"] }
sentry-backtrace = "=0.49.3"
serde = { version = "=1.0.229", features = ["derive"] }
serde_json = "=1.0.154"
backtrace = "=0.3.76"
cadence = "=1.8.0"
actix-web = "=4.18.1"
actix-cors = "=0.7.2"
tokio = { version = "=1.54.1", features = ["rt", "time", "sync"] }
futures = "=0.3.34"
hostname = "=0.4.2"
slog = { version = "=2.8.2", features = ["dynamic-keys"] }
slog-scope = "=4.4.1"
