[package]
name = "speedtest_pro_backend"
version = "0.1.0"
edition = "2021"
publish = false

[dependencies]
actix-cors = "=0.7.2"
actix-web = "=4.18.1"
actix-ws = "=0.2.5"
async-openai = { version = "=0.29.6", default-features = false }
bincode = "=1.3.3"
bytes = "=1.12.1"
chrono = { version = "=0.4.45", features = ["serde"] }
dotenv = "=0.15.0"
env_logger = "=0.10.2"
flate2 = "=1.1.10"
log = "=0.4.34"
once_cell = "=1.21.4"
rand = "=0.8.8"
reqwest = { version = "=0.12.28", default-features = false }
rmp-serde = "=1.3.1"
serde = { version = "=1.0.229", features = ["derive"] }
serde_json = "=1.0.154"
sqlx = { version = "=0.7.4", default-features = false, features = ["runtime-tokio", "sqlite"] }
tokio = { version = "=1.54.1", features = ["full"] }
uuid = { version = "=1.29.0", features = ["v4"] }
