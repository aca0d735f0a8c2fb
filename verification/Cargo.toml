[package]
name = "looker"
version = "0.1.0"
edition = "2021"
publish = false

[dependencies]
starduck = "=0.1.19"
url = "=2.5.8"
chrono = "=0.4.45"
serde_json = "=1.0.154"
redis = "=1.8.1"
paho-mqtt = "=0.14.0"
tokio = { version = "=1.54.1", features = ["full"] }
axum = "=0.7.9"
tower-http = { version = "=0.5.2", features = ["fs"] }
reqwest = { version = "=0.12.28", default-features = false, features = ["json"] }
anyhow = "=1.0.104"
async-trait = "=0.1.92"
dotenv = "=0.15.0"
env_logger = "=0.11.11"
log = "=0.4.35"
project-root = "=0.2.2"
