[package]
name = "microservice"
version = "0.1.0"
edition = "2021"
publish = false

[dependencies]
validator = "=0.16.1"
tonic = { version = "=0.12.3", default-features = false, features = ["transport", "codegen"] }
tokio = { version = "=1.54.1", features = ["macros", "rt-multi-thread", "signal", "time"] }
tokio-util = "=0.7.20"
dotenv = "=0.15.0"
lazy_static = "=1.5.1"
tracing = "=0.1.44"
tracing-subscriber = { version = "=0.3.23", features = ["env-filter"] }
opentelemetry = "=0.28.0"
opentelemetry_sdk = "=0.28.0"
opentelemetry-otlp = { version = "=0.28.0", default-features = false, features = ["grpc-tonic", "trace", "metrics", "logs"] }
opentelemetry-appender-tracing = "=0.28.1"

[dev-dependencies]
validator_derive = "=0.16.0"
