[package]
name = "lambda_appsync"
version = "0.1.0"
edition = "2021"
publish = false

[dependencies]
aws-config = "*"
aws-smithy-types = "*"
env_logger = "*"
graphql-parser = "*"
lambda_runtime = "*"
log = "*"
serde = { version = "*", features = ["derive"] }
serde_json = "*"
tokio = { version = "*", features = ["macros", "rt-multi-thread"] }
