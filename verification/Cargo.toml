[package]
name = "ore_dock_cmms_lambda"
version = "0.1.0"
edition = "2021"
publish = false

[dependencies]
chrono = "0.4"
regex = "1"
rust_decimal = "1"
serde = { version = "1", features = ["derive"] }
serde_json = "1"
thiserror = "1"
aws-sdk-dynamodb = "1"
aws-config = "1"
tokio = { version = "1", features = ["macros", "rt-multi-thread"] }
envy = "0.4"
dotenvy = "0.15"
tracing = "0.1"
tracing-subscriber = "0.3"
