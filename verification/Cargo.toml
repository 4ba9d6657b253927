[package]
name = "vault_tasks"
version = "0.1.0"
edition = "2021"
publish = false

[dependencies]
anyhow = "=1.0.104"
aws-config = "=1.12.0"
aws-sdk-dynamodb = "=1.130.0"
axum = "=0.8.9"
chrono = "=0.4.45"
chrono-tz = "=0.10.4"
lambda_http = "=1.3.1"
serde = { version = "=1.0.229", features = ["derive"] }
serde_dynamo = { version = "=4.3.0", features = ["aws-sdk-dynamodb+1"] }
serde_json = "=1.0.151"
tokio = { version = "=1.53.2", features = ["full"] }
