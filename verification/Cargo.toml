[package]
name = "google_backup_to_s3"
version = "0.1.0"
edition = "2021"
publish = false

[dependencies]
url = "2"
hex = "0.4"
base64 = "0.13"
google-drive3 = "5"
aws-config = "0.51"
aws-sdk-s3 = "0.21"
aws-smithy-http = "0.51"
tokio = { version = "1", features = ["full"] }
futures = "0.3"
log = "0.4"
env_logger = "0.10"
chrono = "0.4"
clap = { version = "4", features = ["derive"] }
byte-unit = "4"
