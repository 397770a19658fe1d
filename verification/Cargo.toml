[package]
name = "shepherd"
version = "0.1.0"
edition = "2021"
publish = false

[dependencies]
fuzzy-matcher = "*"
anyhow = "*"
tokio = { version = "*", features = ["macros", "rt", "rt-multi-thread", "sync", "time", "signal"] }
crossterm = { version = "*", features = ["event-stream"] }
ratatui = "*"
futures = "*"
dirs = "*"
serde = { version = "*", features = ["derive"] }
serde_json = "*"
aws-config = "*"
aws-sdk-lambda = "*"
aws-sdk-cloudwatch = "*"
aws-sdk-eventbridge = "*"
