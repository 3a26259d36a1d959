[package]
name = "voice_engine"
version = "0.1.0"
edition = "2021"
publish = false

[dependencies]
async-trait = "=0.1.92"
audiopus = "=0.2.0"
base64 = "=0.22.1"
bytes = "=1.12.1"
chrono = "=0.4.45"
dotenvy = "0.15"
futures-util = "=0.3.34"
nnnoiseless = { version = "=0.5.2", default-features = false }
ogg = "=0.9.2"
opentelemetry = "=0.33.1"
opentelemetry-otlp = { version = "=0.33.1", features = ["grpc-tonic", "http-proto", "trace"] }
opentelemetry_sdk = "=0.33.1"
ort = { version = "2.0.0-rc.10", default-features = false, features = ["std", "load-dynamic"] }
pyo3 = { version = "0.24", features = ["abi3-py38", "extension-module"] }
realfft = "=3.5.1"
reqwest = { version = "=0.12.28", default-features = false, features = ["json", "multipart"] }
rquickjs = "=0.14.0"
rustfft = "=6.4.1"
secrecy = "=0.10.3"
serde = { version = "=1.0.229", features = ["derive"] }
serde_json = "=1.0.154"
sqlx = { version = "=0.8.6", default-features = false, features = ["runtime-tokio", "postgres", "uuid", "chrono", "json"] }
tokio = { version = "=1.54.1", features = ["full"] }
tokio-tungstenite = "=0.30.0"
tracing = "=0.1.44"
tracing-subscriber = { version = "0.3", features = ["env-filter"] }
tract-core = "*"
tract-onnx = "*"
tract-pulse = "*"
uuid = { version = "=1.29.0", features = ["v4"] }
