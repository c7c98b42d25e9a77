[package]
name = "trading_ig"
version = "0.1.0"
edition = "2021"
publish = false

[dependencies]
base64 = "=0.22.1"
bytes = "=1.12.1"
chrono = { version = "=0.4.45", features = ["serde"] }
http = "=1.5.0"
polars = { version = "=0.55.2", default-features = false, features = ["dtype-datetime"] }
reqwest = { version = "=0.12.28", default-features = false, features = ["json", "stream"] }
rsa = { version = "=0.9.10", features = ["getrandom"] }
serde = { version = "=1.0.229", features = ["derive"] }
serde_json = "=1.0.154"
thiserror = "=2.0.21"
tokio = { version = "=1.54.1", features = ["sync", "time", "macros", "rt"] }
tracing = "=0.1.44"
url = "=2.5.8"
