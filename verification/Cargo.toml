[package]
name = "chat_session"
version = "0.1.0"
edition = "2021"
publish = false

[dependencies]
crossterm = "0.27"
env_logger = "0.11"
futures = "0.3"
ratatui = "0.26"
serde = { version = "1", features = ["derive"] }
serde_json = "1"
tokio = { version = "1", features = ["full"] }
tokio-tungstenite = "0.21"
