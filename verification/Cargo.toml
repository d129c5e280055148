[package]
name = "webhook_logger"
version = "0.1.0"
edition = "2021"
publish = false

[dependencies]
tokio = { version = "1", features = ["rt-multi-thread", "sync", "signal"] }
serenity = "0.12"
poise = "0.6"
serde = { version = "1", features = ["derive"] }
serde_derive = "1"
serde_json = "1"
dotenv = "0.15"
tracing = "0.1"
tracing-subscriber = "0.3"
