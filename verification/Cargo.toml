[package]
name = "webp_batch"
version = "0.1.0"
edition = "2021"
publish = false

[dependencies]
image = "*"
tokio = { version = "*", features = ["macros", "rt-multi-thread"] }
walkdir = "*"
configparser = "*"
aws-config = "*"
aws-sdk-s3 = "*"
