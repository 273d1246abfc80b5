[package]
name = "rust_sqs"
version = "0.1.0"
edition = "2021"
publish = false

[dependencies]
aws-config = { version = "*", default-features = false }
aws-sdk-dynamodb = { version = "*", default-features = false }
aws-sdk-sqs = { version = "*", default-features = false }
aws-types = "*"
aws_lambda_events = "*"
futures = "0.3"
lambda_runtime = "*"
log = "0.4"
serde = { version = "1", features = ["derive"] }
serde_json = "1"
simple_logger = "*"
tokio = { version = "1", features = ["macros", "rt-multi-thread"] }
uuid = { version = "1", features = ["v4"] }
