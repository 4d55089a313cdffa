[package]
name = "imageprocessing"
version = "0.1.0"
edition = "2021"
publish = false

[dependencies]
anyhow = "1"
aws_lambda_events = "0.2"
image = "0.23"
lambda_runtime = "0.2"
log = "0.4"
rusoto_core = "0.42"
rusoto_s3 = "0.42"
serde = { version = "1", features = ["derive"] }
simple_logger = "1"
urlencoding = "1"
