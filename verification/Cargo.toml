[package]
name = "notion_tasks"
version = "0.1.0"
edition = "2021"
publish = false

[dependencies]
chrono = "=0.4.45"
dotenv = "=0.15.0"
futures = "=0.3.34"
notion = "=0.6.0"
quote = "=1.0.47"
serde = { version = "=1.0.229", features = ["derive"] }
serde_json = "=1.0.154"
syn = { version = "=2.0.119", features = ["full"] }
thiserror = "=1.0.69"
ts-rs = "9"
