[package]
name = "rolldice_telemetry"
version = "0.1.0"
edition = "2021"
publish = false

[dependencies]
anyhow = "=1.0.104"
hyper = { version = "=0.14.32", features = ["server", "http1", "tcp"] }
opentelemetry = "=0.33.0"
opentelemetry-otlp = { version = "=0.33.0", default-features = false, features = ["trace", "grpc-tonic"] }
opentelemetry_sdk = "=0.33.0"
opentelemetry-semantic-conventions = "=0.33.0"
rand = "=0.8.8"
tokio = { version = "=1.53.2", features = ["rt-multi-thread", "macros", "time", "net"] }
tracing = "=0.1.44"
tracing-core = "=0.1.36"
tracing-opentelemetry = "=0.34.0"
tracing-subscriber = "=0.3.23"
