[package]
name = "spa_server"
version = "0.1.0"
edition = "2021"
publish = false

[dependencies]
axum = "=0.8.9"
mime_guess = "=2.0.5"
percent-encoding = "=2.3.2"
serde_json = "=1.0.154"
tokio = { version = "=1.54.1", features = ["fs", "macros", "net", "rt-multi-thread", "time"] }
tower-http = { version = "=0.6.11", features = ["fs"] }
tracing = "=0.1.44"
