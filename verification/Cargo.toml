[package]
name = "relay_bot"
version = "0.1.0"
edition = "2021"
publish = false

[dependencies]
chrono = "0.4"
poise = "0.6"
serde = { version = "1", features = ["derive"] }
serenity = "0.12"
tokio = { version = "1", features = ["rt-multi-thread", "macros", "sync"] }
tracing-subscriber = "0.3"
