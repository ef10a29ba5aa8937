[package]
name = "aperture"
version = "0.1.0"
edition = "2021"
publish = false

[dependencies]
tokio = { version = "1", features = ["sync", "rt", "rt-multi-thread", "macros", "signal", "net", "time"] }
tracing = "0.1"
serde = { version = "1", features = ["derive"] }
serde_json = "1"
toml = "0.8"
figment = { version = "0.10", features = ["toml", "env"] }
jsonwebtoken = "9"
axum = "0.7"
tonic = "0.12"
prost = "0.13"
opentelemetry-proto = { version = "0.27", features = ["gen-tonic", "logs", "trace", "metrics"] }
reqwest = { version = "0.12", default-features = false }
http = "1"
http-body = "1"
http-body-util = "0.1"
bytes = "1"
tower-layer = "0.3"
tower-service = "0.3"
