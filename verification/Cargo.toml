[package]
name = "secrets_manager"
version = "0.1.0"
edition = "2021"
publish = false

[dependencies]
serde_json = "1"
aws-config = { version = "*", default-features = false }
aws-sdk-secretsmanager = { version = "*", default-features = false }
tracing = "*"
