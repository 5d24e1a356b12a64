[package]
name = "s3_signer"
version = "0.1.0"
edition = "2021"
publish = false

[dependencies]
chrono = "*"
hmac = "*"
serde = { version = "*", features = ["derive"] }
serde_json = "*"
sha2 = "*"
uuid = { version = "*", features = ["v4"] }

[dev-dependencies]
aws-credential-types = "*"
aws-sigv4 = "*"
aws-smithy-runtime-api = "*"
