[package]
name = "demo_things"
version = "0.1.0"
edition = "2021"
publish = false

[dependencies]
axum = "=0.6.20"
clap = { version = "=4.6.7", features = ["derive"] }
futures-concurrency = "=7.7.1"
futures-util = "=0.3.34"
http-api-problem = "=0.60.0"
humantime-serde = "=1.1.1"
pin-project-lite = "=0.2.17"
serde = { version = "=1.0.229", features = ["derive"] }
serde_json = "=1.0.154"
serde_with = "=3.24.0"
sifis-td = "=0.0.0"
signal-hook = "=0.3.18"
signal-hook-tokio = { version = "=0.3.1", features = ["futures-v0_3"] }
time = { version = "=0.3.55", features = ["formatting", "parsing", "serde", "serde-well-known"] }
tokio = { version = "=1.54.1", features = ["macros", "rt", "sync", "time", "fs", "net"] }
tokio-stream = { version = "=0.1.19", features = ["sync", "time"] }
toml = "=0.5.11"
tower-http = { version = "=0.4.4", features = ["cors"] }
tracing = "=0.1.44"
tracing-subscriber = { version = "=0.3.23", features = ["env-filter"] }
uuid = { version = "=1.29.0", features = ["v4", "serde"] }
wot-serve = "=0.3.1"
wot-td = "=0.2.1"
