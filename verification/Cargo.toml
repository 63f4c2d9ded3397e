[package]
name = "greetbot"
version = "0.1.0"
edition = "2021"
publish = false

[dependencies]
anyhow = "1"
chrono = "0.4"
far = "*"
futures = "0.3"
serde = { version = "1", features = ["derive"] }
tokio = { version = "1", features = ["rt", "fs", "time"] }
toml = "0.5"
tracing = "0.1"
tracing-subscriber = "0.3"
twilight-gateway = "0.11"
twilight-http = "0.11"
twilight-mention = "0.11"
twilight-model = "0.11"
twilight-util = { version = "0.11", features = ["builder", "snowflake"] }
