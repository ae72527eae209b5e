[package]
name = "logga"
version = "0.1.0"
edition = "2021"
publish = false

[dependencies]
aws-config = "=1.12.0"
aws-sdk-s3 = "=1.152.0"
aws-types = "=1.6.0"
clap = { version = "=4.6.7", features = ["derive"] }
core-foundation-sys = "=0.8.7"
env_logger = "=0.11.11"
log = "=0.4.34"
notify = "=6.1.1"
reqwest = "=0.12.28"
security-framework = "=2.11.1"
serde = { version = "=1.0.229", features = ["derive"] }
serde_yaml = "=0.9.34"
signal-hook = "=0.3.18"
tokio = { version = "=1.54.1", features = ["macros", "rt-multi-thread"] }
whoami = "=1.6.1"
