[package]
name = "dinkelberg"
version = "0.1.0"
edition = "2021"
publish = false

[dependencies]
anyhow = "=1.0.104"
bytes = "=1.12.1"
chrono = "=0.4.45"
date_time_parser = "=0.2.0"
deadpool-redis = "=0.8.1"
derive_more = "=0.99.20"
dotenv = "=0.15.0"
envy = "=0.4.2"
lazy_static = "=1.5.1"
log = "=0.4.34"
opentelemetry-jaeger = "=0.11.0"
rand = "=0.8.8"
redis = "=0.20.2"
regex = "=1.13.1"
reqwest = { version = "=0.11.27", features = ["json"] }
serde = { version = "=1.0.229", features = ["derive"] }
serde_json = "=1.0.154"
structopt = "=0.3.26"
teloxide = { version = "=0.5.3", features = ["auto-send", "macros"] }
tokio = { version = "=1.54.1", features = ["full"] }
tracing = "=0.1.44"
tracing-opentelemetry = "=0.11.0"
tracing-subscriber = "=0.2.25"
