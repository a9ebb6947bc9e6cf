[package]
name = "portfolio_api"
version = "0.1.0"
edition = "2021"
publish = false

[dependencies]
axum = "0.7"
dotenv = "0.15"
juniper = "0.16"
juniper_axum = "0.1"
mongodb = "2.8"
serde = { version = "1", features = ["derive"] }
serde_json = "1"
tokio = { version = "1", features = ["full"] }
tower-http = { version = "0.5", features = ["cors"] }
