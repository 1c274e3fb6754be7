[package]
name = "air_quality"
version = "0.1.0"
edition = "2021"
publish = false

[dependencies]
chrono = "=0.4.45"
circular-queue = "=0.2.7"
serde = { version = "=1.0.229", features = ["derive"] }
serde_json = "=1.0.154"
anyhow = "=1.0.104"
log = "=0.4.34"
env_logger = "=0.11.11"
dotenvy = "=0.15.7"
clap = { version = "=4.6.7", features = ["derive"] }
tokio = { version = "=1.54.1", features = ["rt", "macros", "time", "net"] }
reqwest = { version = "=0.12.28", default-features = false, features = ["rustls-tls"] }
rumqttc = "=0.24.0"
axum = "=0.8.9"
tower-http = { version = "=0.6.11", features = ["cors"] }
smartcore = "=0.4.10"
rustyline = "=19.0.0"
esp-idf-hal = "*"
esp-idf-svc = "*"
scd4x = "*"
