[package]
name = "driftguard"
version = "0.1.0"
edition = "2021"
publish = false

[dependencies]
anyhow = "=1.0.104"
async-trait = "=0.1.92"
chrono = "=0.4.45"
dotenv = "=0.15.0"
futures = "=0.3.34"
redis = { version = "=1.7.1", features = ["tokio-comp", "connection-manager"] }
reqwest = { version = "=0.13.5", default-features = false, features = ["json"] }
serde = { version = "=1.0.229", features = ["derive"] }
serde_json = "=1.0.151"
tokio = { version = "=1.53.2", features = ["full"] }
toml = "=1.1.7"
tracing = "=0.1.44"
tracing-subscriber = "=0.3.23"
uuid = { version = "=1.27.0", features = ["v4"] }
warp = { version = "=0.4.3", features = ["server", "websocket"] }
