[package]
name = "orchestration"
version = "0.1.0"
edition = "2021"
publish = false

[dependencies]
chrono = { version = "=0.4.45", default-features = false, features = ["std", "clock"] }
tokio = { version = "=1.54.1", features = ["sync", "time", "macros", "rt"] }
tokio-util = "=0.7.20"
tokio-stream = "=0.1.19"
redis = { version = "=1.8.1", features = ["tokio-comp"] }
tracing = "=0.1.44"
time = { version = "=0.3.55", features = ["formatting", "parsing"] }
serde = { version = "=1.0.229", features = ["derive"] }
serde_json = "=1.0.154"
