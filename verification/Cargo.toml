[package]
name = "heatpump_planner"
version = "0.1.0"
edition = "2021"
publish = false

[dependencies]
rand = "0.8"
chrono = "0.4"
chrono-tz = "0.8"
websocket = { version = "0.27", default-features = false, features = ["sync"] }
serde = { version = "1", features = ["derive"] }
serde_yaml = "0.9"
