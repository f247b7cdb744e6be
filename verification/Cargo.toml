[package]
name = "idempotency_guard"
version = "0.1.0"
edition = "2021"
publish = false

[dependencies]
md5 = "=0.8.1"
aws-config = "=1.12.0"
aws-sdk-dynamodb = "=1.130.0"
lambda_http = "=1.3.1"
serde = { version = "=1.0.229", features = ["derive"] }
serde_dynamo = { version = "=4.3.0", features = ["aws-sdk-dynamodb+1"] }
tokio = { version = "=1.53.2", features = ["macros", "rt-multi-thread"] }
