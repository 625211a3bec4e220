[package]
name = "tesser_execution"
version = "0.1.0"
edition = "2021"
publish = false

[dependencies]
rust_decimal = "=1.43.0"
uuid = { version = "=1.29.0", features = ["v4", "serde"] }
serde = { version = "1", features = ["derive"] }
serde_json = "1"
anyhow = "1"
thiserror = "1"
chrono = { version = "=0.4.45", features = ["serde"] }
tracing = "0.1"
tracing-subscriber = { version = "0.3", features = ["env-filter"] }
clap = { version = "4", features = ["derive"] }
toml = "0.8"
csv = "1"
config = "0.14"
futures = "0.3"
hyper = { version = "0.14", features = ["server", "http1", "tcp"] }
tokio-tungstenite = "0.21"
tokio = { version = "1", features = ["rt-multi-thread", "macros", "fs", "sync", "time", "net"] }
