[package]
name = "telemetry_sqs_to_s3"
version = "0.1.0"
edition = "2021"
publish = false

[dependencies]
serde_json = "1"
aws_lambda_events = { version = "*", default-features = false, features = ["sqs"] }
lambda_runtime = "*"
tokio = { version = "1", features = ["macros", "rt-multi-thread"] }
