[package]
name = "groq_client"
version = "0.1.0"
edition = "2021"
publish = false

[dependencies]
serde = { version = "=1.0.229", features = ["derive"] }
serde_json = "=1.0.151"
reqwest = { version = "=0.12.28", default-features = false, features = ["json", "stream"] }
reqwest-eventsource = "=0.6.0"
futures = "=0.3.34"
anyhow = "=1.0.104"
