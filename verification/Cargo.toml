[package]
name = "dashboard_auth"
version = "0.1.0"
edition = "2021"
publish = false

[dependencies]
axum = { version = "0.8", features = ["macros"] }
bcrypt = "*"
jsonwebtoken = "9"
rdkafka = "*"
serde = { version = "1", features = ["derive"] }
tokio = { version = "1", features = ["full"] }
toml = "*"
tower = "*"
tower-http = { version = "*", features = ["trace", "cors"] }
tracing = "*"
tracing-subscriber = "*"
