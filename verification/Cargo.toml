[package]
name = "rati"
version = "0.1.0"
edition = "2021"
publish = false

[dependencies]
aws-config = "*"
aws-sdk-s3 = "*"
azure_core = "*"
azure_identity = "*"
azure_storage_blob = "*"
bytes = "1"
httpdate = "1"
tokio = { version = "1", features = ["rt"] }
tracing = "0.1"
