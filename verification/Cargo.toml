[package]
name = "server_log"
version = "0.1.0"
edition = "2021"
publish = false

[dependencies]
anyhow = "=1.0.104"
atty = "=0.2.14"
axum = "=0.7.9"
chrono = "=0.4.45"
clap = { version = "=4.6.7", features = ["derive", "env"] }
http-body-util = "=0.1.5"
mime_guess = "=2.0.5"
tokio = { version = "=1.54.1", features = ["fs", "macros", "rt-multi-thread", "net"] }
tower-http = { version = "=0.5.2", features = ["cors", "fs", "limit", "trace"] }
tracing = "=0.1.44"
tracing-error = "=0.2.1"
tracing-subscriber = { version = "=0.3.23", features = ["env-filter"] }
