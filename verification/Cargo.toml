[package]
name = "credential_chain"
version = "0.1.0"
edition = "2021"
publish = false

[dependencies]
aws-config = { version = "=1.12.0", features = ["behavior-version-latest"] }
aws-credential-types = "=1.3.1"
aws-sdk-rekognition = "=1.118.0"
aws-sdk-s3 = "=1.152.0"
aws-sdk-sesv2 = "=1.140.1"
aws-smithy-types = "=1.9.0"
aws-types = "=1.6.0"
tokio = { version = "=1.54.1", features = ["full"] }
