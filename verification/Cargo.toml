[package]
name = "tg_translator"
version = "0.1.0"
edition = "2021"
publish = false

[dependencies]
urlencoding = "=2.1.3"
anyhow = "=1.0.104"
dotenvy = "=0.15.7"
serde = { version = "=1.0.229", features = ["derive"] }
serde_json = "=1.0.154"
toml = "=1.1.8"
tokio = { version = "=1.54.1", features = ["full"] }
tracing = "=0.1.44"
tracing-subscriber = { version = "=0.3.23", features = ["env-filter"] }
reqwest = { version = "=0.13.5", features = ["json", "query", "form"] }
grammers-client = "=0.11.0"
grammers-mtsender = "=0.11.0"
grammers-session = "=0.11.0"
