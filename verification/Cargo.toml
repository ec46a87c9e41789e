[package]
name = "gemini_relay"
version = "0.1.0"
edition = "2021"
publish = false

[dependencies]
base64 = "0.21"
dotenv = "0.15"
reqwest = "0.11"
serde_json = "1"
serenity = "0.12"
tokio = { version = "1", features = ["macros", "rt-multi-thread"] }
tracing = "0.1"
tracing-appender = "0.2"
tracing-subscriber = "0.3"
