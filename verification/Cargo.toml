[package]
name = "bucket_notify"
version = "0.1.0"
edition = "2021"
publish = false

[dependencies]
async-std = { version = "*", features = ["attributes"] }
aws-config = "*"
aws-sdk-sns = "*"
serde_json = "*"
