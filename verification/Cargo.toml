[package]
name = "orchestrator"
version = "0.1.0"
edition = "2021"
publish = false

[dependencies]
aws-config = { version = "=1.12.0", default-features = false }
aws-credential-types = { version = "=1.3.0", default-features = false }
aws-sdk-eventbridge = { version = "=1.122.0", default-features = false }
aws-sdk-iam = { version = "=1.128.0", default-features = false }
aws-sdk-s3 = { version = "1", default-features = false }
aws-sdk-scheduler = { version = "=1.114.0", default-features = false }
aws-sdk-sns = { version = "=1.116.0", default-features = false }
aws-sdk-sqs = { version = "=1.114.0", default-features = false }
clap = { version = "=4.6.7", features = ["derive"] }
dotenvy = "=0.15.7"
tokio = { version = "=1.53.2", features = ["macros", "rt-multi-thread", "time"] }
