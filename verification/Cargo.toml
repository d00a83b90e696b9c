[package]
name = "ddb_products"
version = "0.1.0"
edition = "2021"
publish = false

[dependencies]
aws-config = { version = "1", features = ["behavior-version-latest"] }
aws-sdk-dynamodb = { version = "1", features = ["behavior-version-latest"] }
dotenvy = "0.15"
tokio = { version = "1", features = ["full"] }
