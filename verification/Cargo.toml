[package]
name = "mediator"
version = "0.1.0"
edition = "2021"
publish = false

[dependencies]
affinidi-secrets-resolver = "=0.4.0"
axum = { version = "=0.8.9", default-features = false, features = ["tokio", "http1"] }
axum-server = { version = "=0.8.0", default-features = false, features = ["tls-rustls"] }
chrono = { version = "=0.4.45", default-features = false, features = ["clock"] }
dashmap = "=6.2.1"
governor = "=0.10.4"
http = "=1.5.0"
ipnet = "=2.12.2"
jsonwebtoken = { version = "=11.1.0", default-features = false, features = ["aws_lc_rs"] }
metrics = "=0.24.6"
ring = "=0.17.14"
rustls = "=0.23.46"
serde = { version = "=1.0.229", features = ["derive"] }
serde_json = "=1.0.154"
sha256 = { version = "=1.6.0", default-features = false }
tempfile = "=3.27.0"
thiserror = "=2.0.21"
tokio = { version = "=1.54.1", features = ["net", "rt-multi-thread", "macros", "signal", "time", "sync"] }
tokio-util = "=0.7.20"
toml = "=1.1.8"
tower = "=0.5.3"
tower-http = { version = "=0.7.1", features = ["limit", "trace"] }
tracing = "=0.1.44"
tracing-subscriber = { version = "=0.3.23", features = ["env-filter", "json"] }
url = "=2.5.8"
uuid = { version = "=1.29.0", features = ["v4"] }
