[package]
name = "content_ops_analytics"
version = "0.1.0"
edition = "2021"
publish = false

[dependencies]
chrono = "0.4"
hmac = "0.12"
sha2 = "0.10"
hex = "0.4"
base64 = "0.22"
serde = { version = "1", features = ["derive"] }
serde_json = "1"
uuid = { version = "1", features = ["v7"] }
arrow-array = "*"
arrow-schema = "*"
parquet = { version = "*", default-features = false, features = ["arrow"] }
bytes = "1"
thiserror = "2"
tokio = { version = "1", features = ["macros", "rt-multi-thread"] }
axum = "0.8"
duckdb = "1"
lambda_http = "*"
lambda_runtime = "*"
aws-config = "1"
aws-sdk-s3 = "1"
rmcp = { version = "*", features = ["server", "transport-streamable-http-server"] }
