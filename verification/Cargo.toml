[package]
name = "claire"
version = "0.1.0"
edition = "2021"
publish = false

[dependencies]
anyhow = "=1.0.104"
bytes = "=1.12.1"
chrono = "=0.4.45"
clap = "=2.34.0"
env_logger = "=0.9.3"
log = "=0.4.35"
rusoto_core = { version = "=0.48.0", default-features = false, features = ["rustls"] }
rusoto_ec2 = { version = "=0.48.0", default-features = false, features = ["rustls"] }
rusoto_iam = { version = "=0.48.0", default-features = false, features = ["rustls"] }
rusoto_lambda = { version = "=0.48.0", default-features = false, features = ["rustls"] }
rusoto_s3 = { version = "=0.48.0", default-features = false, features = ["rustls"] }
rusoto_stepfunctions = { version = "=0.48.0", default-features = false, features = ["rustls", "serialize_structs"] }
serde = { version = "=1.0.229", features = ["derive"] }
serde_json = "=1.0.154"
tokio = { version = "=1.54.1", features = ["macros", "rt-multi-thread"] }
