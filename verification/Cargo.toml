[package]
name = "ne_s3"
version = "0.1.0"
edition = "2021"
publish = false

[dependencies]
aws-config = "=1.11.0"
aws-credential-types = "=1.3.1"
aws-sdk-s3 = "=1.152.0"
aws-smithy-runtime-api = "=1.19.1"
aws-smithy-types = { version = "=1.9.0", features = ["http-body-0-4-x"] }
bytes = "=1.12.1"
clap = { version = "=4.6.7", features = ["derive"] }
flexi_logger = "=0.31.10"
http = "=0.2.12"
http-body = "=0.4.6"
log = "=0.4.34"
pin-project = "=1.1.13"
serde = { version = "=1.0.229", features = ["derive"] }
serde_json = "=1.0.154"
sysinfo = "=0.39.6"
tokio = { version = "=1.54.1", features = ["full"] }
urlencoding = "=2.1.3"
