[package]
name = "camera_server"
version = "0.1.0"
edition = "2021"
publish = false

[dependencies]
image = { version = "0.25", default-features = false, features = ["jpeg"] }
axum = "0.7"
bytes = "1"
chrono = "0.4"
env_logger = "0.11"
fjall = "*"
futures = "0.3"
log = "0.4"
reqwest = { version = "0.12", default-features = false, features = ["multipart", "json", "rustls-tls"] }
serde = { version = "1", features = ["derive"] }
serde_json = "1"
tokio = { version = "1", features = ["full"] }
tokio-stream = { version = "0.1", features = ["sync"] }
tower = "0.5"
tower-http = { version = "0.6", features = ["trace", "catch-panic"] }
utoipa = "5"
utoipa-swagger-ui = { version = "8", features = ["axum"] }
